//! Payment information: the model of resolved instructions, the URI built from
//! them, their classification and the parameters read back from the URI.

use vstd::prelude::*;
use vstd::string::*;

use crate::assoc::{
    assoc_map, keys_unique, lemma_assoc_absent, lemma_assoc_lookup, lemma_assoc_push,
    lemma_assoc_update,
};
use crate::backend::{btc_decimal, btc_decimal_text, MAX_MSATS};
use crate::error::Bip353Error;
use crate::text::{chars_of, find_char, first_index, lemma_first_index_bounds};

verus! {

/// Payment instruction type
#[derive(Debug, Clone, Copy, PartialEq, Eq, Structural)]
pub enum PaymentType {
    /// On-chain Bitcoin address
    OnChain,
    /// Lightning Network invoice (BOLT 11)
    Lightning,
    /// Lightning Network offer (BOLT 12)
    LightningOffer,
    /// Unknown payment type
    Unknown,
}

/// The name of a payment type.
pub open spec fn payment_type_text(t: PaymentType) -> Seq<char> {
    match t {
        PaymentType::OnChain => "on-chain"@,
        PaymentType::Lightning => "lightning"@,
        PaymentType::LightningOffer => "lightning-offer"@,
        PaymentType::Unknown => "unknown"@,
    }
}

impl PaymentType {
    /// The name of the payment type: `on-chain`, `lightning`, `lightning-offer`
    /// or `unknown`.
    pub fn to_string(&self) -> (r: String)
        ensures
            r@ == payment_type_text(*self),
    {
        match self {
            PaymentType::OnChain => String::from_str("on-chain"),
            PaymentType::Lightning => String::from_str("lightning"),
            PaymentType::LightningOffer => String::from_str("lightning-offer"),
            PaymentType::Unknown => String::from_str("unknown"),
        }
    }
}

/// One way to pay, as the resolution backend reported it, in text form.
#[derive(Debug)]
pub enum PaymentMethod {
    /// An on-chain address
    OnChain(String),
    /// A BOLT 11 invoice (single use)
    LightningBolt11(String),
    /// A BOLT 12 offer (reusable)
    LightningBolt12(String),
    /// A Cashu payment request
    Cashu(String),
    /// A pay-on-demand (LNURL-pay) endpoint that yields an invoice once an amount
    /// is chosen; holds its callback URL
    PayOnDemand(String),
}

impl PaymentMethod {
    /// A copy of the method.
    pub fn duplicate(&self) -> (r: PaymentMethod)
        ensures
            r == *self,
    {
        match self {
            PaymentMethod::OnChain(s) => PaymentMethod::OnChain(s.clone()),
            PaymentMethod::LightningBolt11(s) => PaymentMethod::LightningBolt11(s.clone()),
            PaymentMethod::LightningBolt12(s) => PaymentMethod::LightningBolt12(s.clone()),
            PaymentMethod::Cashu(s) => PaymentMethod::Cashu(s.clone()),
            PaymentMethod::PayOnDemand(s) => PaymentMethod::PayOnDemand(s.clone()),
        }
    }
}

/// The instructions a resolution produced.
#[derive(Debug)]
pub enum OriginalInstructions {
    /// Payment of a fixed amount; the largest amount any method asks for, in
    /// milli-satoshis, when it is known
    FixedAmount { methods: Vec<PaymentMethod>, max_amount_msats: Option<u64> },
    /// Payment of an amount the payer chooses
    ConfigurableAmount { methods: Vec<PaymentMethod> },
}

impl OriginalInstructions {
    /// The methods, in the order the backend gave them.
    pub open spec fn methods_spec(&self) -> Seq<PaymentMethod> {
        match self {
            OriginalInstructions::FixedAmount { methods, .. } => methods@,
            OriginalInstructions::ConfigurableAmount { methods } => methods@,
        }
    }

    /// The methods, in order.
    pub fn methods(&self) -> (r: &Vec<PaymentMethod>)
        ensures
            r@ == self.methods_spec(),
    {
        match self {
            OriginalInstructions::FixedAmount { methods, .. } => methods,
            OriginalInstructions::ConfigurableAmount { methods } => methods,
        }
    }

    /// A copy of the instructions.
    pub fn duplicate(&self) -> (r: OriginalInstructions)
        ensures
            r.methods_spec() == self.methods_spec(),
            r.same_kind(self),
    {
        let src = self.methods();
        let mut ms: Vec<PaymentMethod> = Vec::new();
        let mut i: usize = 0;
        while i < src.len()
            invariant
                i <= src@.len(),
                ms@ == src@.subrange(0, i as int),
            decreases src@.len() - i,
        {
            ms.push(src[i].duplicate());
            i = i + 1;
            assert(ms@ =~= src@.subrange(0, i as int));
        }
        assert(ms@ =~= src@);
        match self {
            OriginalInstructions::FixedAmount { max_amount_msats, .. } => {
                OriginalInstructions::FixedAmount { methods: ms, max_amount_msats: *max_amount_msats }
            },
            OriginalInstructions::ConfigurableAmount { .. } => {
                OriginalInstructions::ConfigurableAmount { methods: ms }
            },
        }
    }

    /// Both are fixed with the same amount, or both configurable.
    pub open spec fn same_kind(&self, o: &OriginalInstructions) -> bool {
        match (self, o) {
            (
                OriginalInstructions::FixedAmount { max_amount_msats: a, .. },
                OriginalInstructions::FixedAmount { max_amount_msats: b, .. },
            ) => a == b,
            (
                OriginalInstructions::ConfigurableAmount { .. },
                OriginalInstructions::ConfigurableAmount { .. },
            ) => true,
            _ => false,
        }
    }
}

/// The URI of a single method.
pub open spec fn method_uri(m: PaymentMethod) -> Seq<char> {
    match m {
        PaymentMethod::OnChain(a) => "bitcoin:"@ + a@,
        PaymentMethod::LightningBolt11(i) => "bitcoin:?lightning="@ + i@,
        PaymentMethod::LightningBolt12(o) => "bitcoin:?lno="@ + o@,
        PaymentMethod::Cashu(_) => "bitcoin:"@,
        PaymentMethod::PayOnDemand(_) => "bitcoin:"@,
    }
}

/// The URI built from the first method; an on-chain first method of fixed
/// instructions carries the amount. `None` when there is no method, or when that
/// amount is above the 21 million bitcoin that can exist.
pub open spec fn uri_spec(instr: OriginalInstructions) -> Option<Seq<char>> {
    let ms = instr.methods_spec();
    if ms.len() == 0 {
        None
    } else {
        match (instr, ms[0]) {
            (
                OriginalInstructions::FixedAmount { max_amount_msats: Some(m), .. },
                PaymentMethod::OnChain(a),
            ) => if m <= MAX_MSATS {
                Some("bitcoin:"@ + a@ + "?amount="@ + btc_decimal_text(m))
            } else {
                None
            },
            _ => Some(method_uri(ms[0])),
        }
    }
}

/// Type and reusability after visiting every method in order: each method sets
/// the type, and a single-use method clears reusability.
pub open spec fn classify(ms: Seq<PaymentMethod>) -> (PaymentType, bool)
    decreases ms.len(),
{
    if ms.len() == 0 {
        (PaymentType::Unknown, true)
    } else {
        let (t, r) = classify(ms.drop_last());
        match ms.last() {
            PaymentMethod::OnChain(_) => (PaymentType::OnChain, r),
            PaymentMethod::LightningBolt11(_) => (PaymentType::Lightning, false),
            PaymentMethod::LightningBolt12(_) => (PaymentType::LightningOffer, r),
            PaymentMethod::Cashu(_) => (PaymentType::Unknown, r),
            PaymentMethod::PayOnDemand(_) => (PaymentType::Lightning, false),
        }
    }
}

/// A method that can be paid only once: an invoice, or one that will become one.
pub open spec fn is_single_use(m: PaymentMethod) -> bool {
    m is LightningBolt11 || m is PayOnDemand
}

/// The pieces of `s` between occurrences of `c`.
pub open spec fn split_on(s: Seq<char>, c: char) -> Seq<Seq<char>>
    decreases s.len(),
{
    if s.len() == 0 {
        seq![Seq::<char>::empty()]
    } else {
        let p = split_on(s.drop_last(), c);
        if s.last() == c {
            p.push(Seq::<char>::empty())
        } else {
            p.update(p.len() - 1, p.last().push(s.last()))
        }
    }
}

/// A `key=value` piece split at its first `=`; `None` without one.
pub open spec fn pair_of(seg: Seq<char>) -> Option<(Seq<char>, Seq<char>)> {
    match first_index(seg, '=') {
        Some(k) => Some((seg.subrange(0, k), seg.subrange(k + 1, seg.len() as int))),
        None => None,
    }
}

/// The parameters of a list of pieces; a later key wins.
pub open spec fn params_from(segs: Seq<Seq<char>>) -> Map<Seq<char>, Seq<char>>
    decreases segs.len(),
{
    if segs.len() == 0 {
        Map::empty()
    } else {
        let m = params_from(segs.drop_last());
        match pair_of(segs.last()) {
            Some(p) => m.insert(p.0, p.1),
            None => m,
        }
    }
}

/// The parameters of a URI: the part after its first `?`, split at `&`, each
/// piece at its first `=`.
pub open spec fn params_spec(uri: Seq<char>) -> Map<Seq<char>, Seq<char>> {
    match first_index(uri, '?') {
        Some(i) => params_from(split_on(uri.subrange(i + 1, uri.len() as int), '&')),
        None => Map::empty(),
    }
}

/// The text view of a list of parameters.
pub open spec fn params_view(ps: Seq<(String, String)>) -> Seq<(Seq<char>, Seq<char>)> {
    ps.map_values(|p: (String, String)| (p.0@, p.1@))
}

/// Structured payment information
#[derive(Debug)]
pub struct PaymentInfo {
    /// The Bitcoin URI (BIP-21)
    pub uri: String,
    /// The type of payment method
    pub payment_type: PaymentType,
    /// Whether the payment address is reusable
    pub is_reusable: bool,
    /// Parameters of the URI, each key once
    pub parameters: Vec<(String, String)>,
    /// The instructions the information was built from
    pub original_instructions: OriginalInstructions,
}

impl PaymentInfo {
    /// The parameters, as a map.
    pub open spec fn parameter_map(&self) -> Map<Seq<char>, Seq<char>> {
        assoc_map(params_view(self.parameters@))
    }

    /// Each parameter key occurs once.
    pub open spec fn wf(&self) -> bool {
        keys_unique(params_view(self.parameters@))
    }

    /// All that the information says.
    pub open spec fn same_as(&self, o: &PaymentInfo) -> bool {
        &&& self.uri@ == o.uri@
        &&& self.payment_type == o.payment_type
        &&& self.is_reusable == o.is_reusable
        &&& params_view(self.parameters@) == params_view(o.parameters@)
        &&& self.original_instructions.methods_spec() == o.original_instructions.methods_spec()
        &&& self.original_instructions.same_kind(&o.original_instructions)
    }

    /// Builds the information for instructions and the URI chosen for them:
    /// classifies every method and reads the parameters of the URI.
    pub fn from_instructions(instructions: OriginalInstructions, uri: String) -> (r: PaymentInfo)
        ensures
            r.wf(),
            r.uri@ == uri@,
            (r.payment_type, r.is_reusable) == classify(instructions.methods_spec()),
            r.is_reusable == !exists|i: int|
                0 <= i < instructions.methods_spec().len() && is_single_use(
                    #[trigger] instructions.methods_spec()[i],
                ),
            r.parameter_map() == params_spec(uri@),
            r.original_instructions == instructions,
    {
        let (payment_type, is_reusable) = classify_methods(instructions.methods());
        proof {
            lemma_classify_reusable(instructions.methods_spec());
        }
        let parameters = extract_parameters(&uri);
        PaymentInfo {
            uri,
            payment_type,
            is_reusable,
            parameters,
            original_instructions: instructions,
        }
    }

    /// A copy of the information.
    pub fn duplicate(&self) -> (r: PaymentInfo)
        ensures
            r.same_as(self),
            self.wf() ==> r.wf(),
    {
        let mut ps: Vec<(String, String)> = Vec::new();
        let mut i: usize = 0;
        while i < self.parameters.len()
            invariant
                i <= self.parameters@.len(),
                ps@ == self.parameters@.subrange(0, i as int),
            decreases self.parameters@.len() - i,
        {
            let k = self.parameters[i].0.clone();
            let v = self.parameters[i].1.clone();
            ps.push((k, v));
            i = i + 1;
            assert(ps@ =~= self.parameters@.subrange(0, i as int));
        }
        assert(self.parameters@.subrange(0, i as int) =~= self.parameters@);
        PaymentInfo {
            uri: self.uri.clone(),
            payment_type: self.payment_type,
            is_reusable: self.is_reusable,
            parameters: ps,
            original_instructions: self.original_instructions.duplicate(),
        }
    }

    /// The value of a parameter of the URI, if it has one.
    pub fn get_parameter(&self, key: &str) -> (r: Option<String>)
        requires
            self.wf(),
        ensures
            r matches Some(v) ==> self.parameter_map().contains_key(key@)
                && self.parameter_map()[key@] == v@,
            r is None ==> !self.parameter_map().contains_key(key@),
    {
        let ghost pv = params_view(self.parameters@);
        let k = String::from_str(key);
        let mut i: usize = 0;
        while i < self.parameters.len()
            invariant
                i <= self.parameters@.len(),
                pv == params_view(self.parameters@),
                keys_unique(pv),
                k@ == key@,
                forall|j: int| 0 <= j < i ==> #[trigger] pv[j].0 != key@,
            decreases self.parameters@.len() - i,
        {
            assert(pv[i as int] == (self.parameters@[i as int].0@, self.parameters@[i as int].1@));
            if self.parameters[i].0 == k {
                proof {
                    lemma_assoc_lookup(pv, i as int);
                }
                return Some(self.parameters[i].1.clone());
            }
            i = i + 1;
        }
        proof {
            lemma_assoc_absent(pv, key@);
        }
        None
    }
}

/// The URI for instructions, or `None` when they hold no method or carry an
/// amount above what can exist.
pub fn uri_for(instructions: &OriginalInstructions) -> (r: Option<String>)
    ensures
        r matches Some(u) ==> uri_spec(*instructions) == Some(u@),
        r is None ==> uri_spec(*instructions) is None,
{
    let ms = instructions.methods();
    if ms.len() == 0 {
        return None;
    }
    let first = &ms[0];
    if let OriginalInstructions::FixedAmount { max_amount_msats: Some(m), .. } = instructions {
        if let PaymentMethod::OnChain(a) = first {
            if *m > MAX_MSATS {
                return None;
            }
            let mut u = String::from_str("bitcoin:");
            u.append(a.as_str());
            u.append("?amount=");
            let amount = btc_decimal(*m);
            u.append(amount.as_str());
            return Some(u);
        }
    }
    let u = match first {
        PaymentMethod::OnChain(a) => {
            let mut u = String::from_str("bitcoin:");
            u.append(a.as_str());
            u
        },
        PaymentMethod::LightningBolt11(inv) => {
            let mut u = String::from_str("bitcoin:?lightning=");
            u.append(inv.as_str());
            u
        },
        PaymentMethod::LightningBolt12(offer) => {
            let mut u = String::from_str("bitcoin:?lno=");
            u.append(offer.as_str());
            u
        },
        PaymentMethod::Cashu(_) => String::from_str("bitcoin:"),
        PaymentMethod::PayOnDemand(_) => String::from_str("bitcoin:"),
    };
    Some(u)
}

/// `r` is what resolved instructions become: an `InvalidRecord` error exactly
/// when no URI can be built for them, else their URI, classification and
/// parameters.
pub open spec fn built_from(instructions: OriginalInstructions, r: Result<PaymentInfo, Bip353Error>) -> bool {
    &&& uri_spec(instructions) is None <==> r is Err
    &&& r matches Err(e) ==> e is InvalidRecord
    &&& r matches Ok(info) ==> {
        &&& info.wf()
        &&& uri_spec(instructions) == Some(info.uri@)
        &&& (info.payment_type, info.is_reusable) == classify(instructions.methods_spec())
        &&& info.parameter_map() == params_spec(info.uri@)
        &&& info.original_instructions == instructions
    }
}

/// Turns resolved instructions into payment information: the URI of their first
/// method, the classification of all methods, and the URI's parameters. Fails
/// with `InvalidRecord` when the instructions hold no method, or an amount
/// above what can exist.
pub fn payment_info_from_original(instructions: OriginalInstructions) -> (r: Result<
    PaymentInfo,
    Bip353Error,
>)
    ensures
        built_from(instructions, r),
{
    match uri_for(&instructions) {
        Some(uri) => Ok(PaymentInfo::from_instructions(instructions, uri)),
        None => {
            if instructions.methods().len() == 0 {
                Err(Bip353Error::InvalidRecord(String::from_str("No payment methods found")))
            } else {
                Err(Bip353Error::InvalidRecord(String::from_str("Amount exceeds 21 million bitcoin")))
            }
        },
    }
}

/// Classifies methods in order, as `classify` does.
fn classify_methods(ms: &Vec<PaymentMethod>) -> (r: (PaymentType, bool))
    ensures
        r == classify(ms@),
{
    let mut t = PaymentType::Unknown;
    let mut reusable = true;
    let mut i: usize = 0;
    while i < ms.len()
        invariant
            i <= ms@.len(),
            (t, reusable) == classify(ms@.subrange(0, i as int)),
        decreases ms@.len() - i,
    {
        assert(ms@.subrange(0, i + 1).drop_last() =~= ms@.subrange(0, i as int));
        match &ms[i] {
            PaymentMethod::OnChain(_) => {
                t = PaymentType::OnChain;
            },
            PaymentMethod::LightningBolt11(_) => {
                t = PaymentType::Lightning;
                reusable = false;
            },
            PaymentMethod::LightningBolt12(_) => {
                t = PaymentType::LightningOffer;
            },
            PaymentMethod::Cashu(_) => {
                t = PaymentType::Unknown;
            },
            PaymentMethod::PayOnDemand(_) => {
                t = PaymentType::Lightning;
                reusable = false;
            },
        }
        i = i + 1;
    }
    assert(ms@.subrange(0, i as int) =~= ms@);
    (t, reusable)
}

/// Reusability is lost exactly when some method is single-use.
pub proof fn lemma_classify_reusable(ms: Seq<PaymentMethod>)
    ensures
        classify(ms).1 == !exists|i: int| 0 <= i < ms.len() && is_single_use(#[trigger] ms[i]),
    decreases ms.len(),
{
    if ms.len() > 0 {
        let d = ms.drop_last();
        lemma_classify_reusable(d);
        if exists|i: int| 0 <= i < d.len() && is_single_use(#[trigger] d[i]) {
            let i = choose|i: int| 0 <= i < d.len() && is_single_use(#[trigger] d[i]);
            assert(ms[i] == d[i]);
        }
        if exists|i: int| 0 <= i < ms.len() && is_single_use(#[trigger] ms[i]) {
            let i = choose|i: int| 0 <= i < ms.len() && is_single_use(#[trigger] ms[i]);
            if i < ms.len() - 1 {
                assert(d[i] == ms[i]);
            }
        }
    }
}

proof fn lemma_split_nonempty(s: Seq<char>, c: char)
    ensures
        split_on(s, c).len() >= 1,
    decreases s.len(),
{
    if s.len() > 0 {
        lemma_split_nonempty(s.drop_last(), c);
    }
}

/// Inserts `key = value`, replacing an earlier value of the key.
pub(crate) fn put_parameter(ps: &mut Vec<(String, String)>, key: String, value: String)
    requires
        keys_unique(params_view(old(ps)@)),
    ensures
        keys_unique(params_view(final(ps)@)),
        assoc_map(params_view(final(ps)@)) == assoc_map(params_view(old(ps)@)).insert(
            key@,
            value@,
        ),
{
    let ghost pv = params_view(ps@);
    let mut i: usize = 0;
    while i < ps.len()
        invariant
            i <= ps@.len(),
            pv == params_view(ps@),
            pv == params_view(old(ps)@),
            keys_unique(pv),
            forall|j: int| 0 <= j < i ==> #[trigger] pv[j].0 != key@,
        decreases ps@.len() - i,
    {
        assert(pv[i as int] == (ps@[i as int].0@, ps@[i as int].1@));
        if ps[i].0 == key {
            proof {
                lemma_assoc_update(pv, i as int, value@);
            }
            ps.set(i, (key, value));
            assert(params_view(ps@) =~= pv.update(i as int, (pv[i as int].0, value@)));
            return;
        }
        i = i + 1;
    }
    proof {
        lemma_assoc_push(pv, key@, value@);
    }
    ps.push((key, value));
    assert(params_view(ps@) =~= pv.push((key@, value@)));
}

/// Reads the parameters of a URI, as `params_spec` describes.
fn extract_parameters(uri: &String) -> (r: Vec<(String, String)>)
    ensures
        keys_unique(params_view(r@)),
        assoc_map(params_view(r@)) == params_spec(uri@),
{
    let s = uri.as_str();
    let v = chars_of(s);
    let n = v.len();
    let mut ps: Vec<(String, String)> = Vec::new();
    let (_, q) = find_char(&v, 0, n, '?');
    assert(v@.subrange(0, n as int) =~= v@);
    proof {
        lemma_first_index_bounds(v@, '?');
    }
    let qi = match q {
        Some(i) => i,
        None => {
            assert(assoc_map(params_view(ps@)) =~= Map::empty());
            return ps;
        },
    };
    let q0 = qi + 1;
    let ghost mut done: Seq<Seq<char>> = Seq::empty();
    let mut start: usize = q0;
    let mut j: usize = q0;
    assert(v@.subrange(q0 as int, q0 as int) =~= Seq::<char>::empty());
    assert(split_on(v@.subrange(q0 as int, q0 as int), '&') =~= done.push(
        v@.subrange(start as int, j as int),
    ));
    assert(assoc_map(params_view(ps@)) =~= params_from(done));
    while j < n
        invariant
            q0 <= start <= j <= n == v@.len(),
            v@ == s@,
            split_on(v@.subrange(q0 as int, j as int), '&') == done.push(
                v@.subrange(start as int, j as int),
            ),
            keys_unique(params_view(ps@)),
            assoc_map(params_view(ps@)) == params_from(done),
        decreases n - j,
    {
        let ghost sub = v@.subrange(q0 as int, j + 1);
        assert(sub.drop_last() =~= v@.subrange(q0 as int, j as int));
        if v[j] == '&' {
            take_pair(s, &v, start, j, &mut ps);
            proof {
                let seg = v@.subrange(start as int, j as int);
                assert(done.push(seg).drop_last() =~= done);
                done = done.push(seg);
            }
            start = j + 1;
            j = j + 1;
            assert(v@.subrange(start as int, j as int) =~= Seq::<char>::empty());
        } else {
            j = j + 1;
            assert(v@.subrange(start as int, j as int) =~= v@.subrange(
                start as int,
                j - 1,
            ).push(v@[j - 1]));
            assert(split_on(sub, '&') =~= done.push(v@.subrange(start as int, j as int)));
        }
    }
    take_pair(s, &v, start, n, &mut ps);
    proof {
        let seg = v@.subrange(start as int, n as int);
        assert(done.push(seg).drop_last() =~= done);
    }
    ps
}

/// Adds the pair that `v[a..b]` holds, if it holds one.
fn take_pair(s: &str, v: &Vec<char>, a: usize, b: usize, ps: &mut Vec<(String, String)>)
    requires
        a <= b <= v@.len(),
        v@ == s@,
        keys_unique(params_view(old(ps)@)),
    ensures
        keys_unique(params_view(final(ps)@)),
        assoc_map(params_view(final(ps)@)) == match pair_of(v@.subrange(a as int, b as int)) {
            Some(p) => assoc_map(params_view(old(ps)@)).insert(p.0, p.1),
            None => assoc_map(params_view(old(ps)@)),
        },
{
    let ghost seg = v@.subrange(a as int, b as int);
    let (_, eq) = find_char(v, a, b, '=');
    proof {
        lemma_first_index_bounds(seg, '=');
    }
    if let Some(k) = eq {
        let key = String::from_str(s.substring_char(a, k));
        let value = String::from_str(s.substring_char(k + 1, b));
        assert(key@ =~= seg.subrange(0, k - a));
        assert(value@ =~= seg.subrange(k - a + 1, seg.len() as int));
        put_parameter(ps, key, value);
    }
}

} // verus!
