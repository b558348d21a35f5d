use vstd::prelude::*;

use crate::text::{chars_of, find_from, find_spec, matches_at, occurs_at, slice, text_of};

verus! {

broadcast use vstd::seq_lib::group_to_multiset_ensures;

/// An Azure subscription, as the resource manager lists it.
#[derive(Debug, Clone)]
pub struct Subscription {
    pub subscription_id: String,
    pub display_name: String,
    pub state: String,
}

/// A Service Bus namespace resource.
#[derive(Debug, Clone)]
pub struct NamespaceResource {
    pub name: String,
    pub location: String,
    pub properties: NamespaceProperties,
}

/// Properties of a namespace resource.
#[derive(Debug, Clone)]
pub struct NamespaceProperties {
    pub service_bus_endpoint: String,
    pub status: String,
}

/// A namespace found during discovery, with the subscription it belongs to.
#[derive(Debug, Clone)]
pub struct DiscoveredNamespace {
    pub fqdn: String,
    pub name: String,
    pub subscription_name: String,
    pub subscription_id: String,
    pub location: String,
    pub status: String,
}

/// The namespaces found, and a message for each subscription that failed.
#[derive(Debug, Clone)]
pub struct DiscoveryResult {
    pub namespaces: Vec<DiscoveredNamespace>,
    pub errors: Vec<String>,
}

/// Position after every repetition of the non-empty `p` that starts at `i`.
pub open spec fn skip_repeated(s: Seq<char>, p: Seq<char>, i: int) -> int
    decreases s.len() - i,
{
    if p.len() > 0 && 0 <= i && occurs_at(s, p, i) {
        skip_repeated(s, p, i + p.len())
    } else {
        i
    }
}

/// The host of a namespace endpoint: any `https://` and then any `http://`
/// prefixes removed, and the rest cut at the first `:`, or failing that at
/// the first `/`.
pub open spec fn fqdn_spec(endpoint: Seq<char>) -> Seq<char> {
    let a = skip_repeated(endpoint, "https://"@, 0);
    let b = skip_repeated(endpoint, "http://"@, a);
    let t = endpoint.subrange(b, endpoint.len() as int);
    match find_spec(t, seq![':'], 0) {
        Some(c) => t.take(c),
        None => match find_spec(t, seq!['/'], 0) {
            Some(s) => t.take(s),
            None => t,
        },
    }
}

fn skip_prefixes(s: &Vec<char>, p: &Vec<char>, from: usize) -> (r: usize)
    requires
        from <= s@.len(),
    ensures
        r == skip_repeated(s@, p@, from as int),
        from <= r <= s@.len(),
{
    let n = s.len();
    let mut i = from;
    if p.len() == 0 {
        return i;
    }
    while matches_at(s, p, i)
        invariant
            n == s@.len(),
            from <= i <= s@.len(),
            p@.len() > 0,
            skip_repeated(s@, p@, from as int) == skip_repeated(s@, p@, i as int),
        decreases s@.len() - i,
    {
        i = i + p.len();
    }
    i
}

/// The fully-qualified host name of a namespace endpoint URL.
pub fn extract_fqdn_from_endpoint(endpoint: &str) -> (r: String)
    ensures
        r@ == fqdn_spec(endpoint@),
{
    let e = chars_of(endpoint);
    let a = skip_prefixes(&e, &chars_of("https://"), 0);
    let b = skip_prefixes(&e, &chars_of("http://"), a);
    let t = slice(&e, b, e.len());
    let mut colon: Vec<char> = Vec::new();
    colon.push(':');
    let mut slash: Vec<char> = Vec::new();
    slash.push('/');
    assert(colon@ =~= seq![':']);
    assert(slash@ =~= seq!['/']);
    match find_from(&t, &colon, 0) {
        Some(c) => {
            proof {
                crate::text::lemma_find_bounds(t@, colon@, 0);
            }
            text_of(&slice(&t, 0, c))
        },
        None => match find_from(&t, &slash, 0) {
            Some(s) => {
                proof {
                    crate::text::lemma_find_bounds(t@, slash@, 0);
                }
                text_of(&slice(&t, 0, s))
            },
            None => text_of(&t),
        },
    }
}


/// What listing the namespaces of one Azure subscription came back with:
/// the namespaces, or the error text.
#[derive(Debug)]
pub struct SubscriptionListing {
    pub subscription_name: String,
    pub subscription_id: String,
    pub namespaces: Result<Vec<NamespaceResource>, String>,
}

/// Whether `a` comes strictly before `b`, comparing from position `i` on,
/// character by character, a proper prefix first.
pub open spec fn text_lt_from(a: Seq<char>, b: Seq<char>, i: int) -> bool
    decreases a.len() - i,
{
    if i < 0 {
        false
    } else if i >= a.len() {
        i < b.len()
    } else if i >= b.len() {
        false
    } else if a[i] != b[i] {
        a[i] < b[i]
    } else {
        text_lt_from(a, b, i + 1)
    }
}

/// The lexicographic order of strings, the order `String` compares in.
pub open spec fn text_lt(a: Seq<char>, b: Seq<char>) -> bool {
    text_lt_from(a, b, 0)
}

/// Discovered namespaces are listed by subscription name, then by name.
pub open spec fn ns_before(x: DiscoveredNamespace, y: DiscoveredNamespace) -> bool {
    text_lt(x.subscription_name@, y.subscription_name@) || (x.subscription_name@
        == y.subscription_name@ && text_lt(x.name@, y.name@))
}

/// Whether no namespace of `s` comes before one listed earlier.
pub open spec fn ns_sorted(s: Seq<DiscoveredNamespace>) -> bool {
    forall|i: int, j: int| 0 <= i < j < s.len() ==> !ns_before(#[trigger] s[j], #[trigger] s[i])
}

proof fn lemma_text_lt_trans(a: Seq<char>, b: Seq<char>, c: Seq<char>, i: int)
    requires
        0 <= i,
        text_lt_from(a, b, i),
        text_lt_from(b, c, i),
    ensures
        text_lt_from(a, c, i),
    decreases a.len() - i,
{
    if i < a.len() && i < b.len() && i < c.len() && a[i] == b[i] && b[i] == c[i] {
        lemma_text_lt_trans(a, b, c, i + 1);
    }
}

proof fn lemma_text_lt_asym(a: Seq<char>, b: Seq<char>, i: int)
    requires
        0 <= i,
        text_lt_from(a, b, i),
    ensures
        !text_lt_from(b, a, i),
    decreases a.len() - i,
{
    if i < a.len() && i < b.len() && a[i] == b[i] {
        lemma_text_lt_asym(a, b, i + 1);
    }
}

proof fn lemma_ns_trans(x: DiscoveredNamespace, y: DiscoveredNamespace, z: DiscoveredNamespace)
    requires
        ns_before(x, y),
        ns_before(y, z),
    ensures
        ns_before(x, z),
{
    if text_lt(x.subscription_name@, y.subscription_name@) && text_lt(y.subscription_name@, z.subscription_name@) {
        lemma_text_lt_trans(x.subscription_name@, y.subscription_name@, z.subscription_name@, 0);
    }
    if x.subscription_name@ == y.subscription_name@ && y.subscription_name@ == z.subscription_name@
        && text_lt(x.name@, y.name@) && text_lt(y.name@, z.name@) {
        lemma_text_lt_trans(x.name@, y.name@, z.name@, 0);
    }
}

proof fn lemma_ns_asym(x: DiscoveredNamespace, y: DiscoveredNamespace)
    requires
        ns_before(x, y),
    ensures
        !ns_before(y, x),
{
    if text_lt(x.subscription_name@, y.subscription_name@) {
        lemma_text_lt_asym(x.subscription_name@, y.subscription_name@, 0);
    } else {
        lemma_text_lt_asym(x.name@, y.name@, 0);
    }
}

fn text_less(a: &String, b: &String) -> (r: bool)
    ensures
        r == text_lt(a@, b@),
{
    let x = chars_of(a.as_str());
    let y = chars_of(b.as_str());
    let mut i: usize = 0;
    while i < x.len() && i < y.len() && x[i] == y[i]
        invariant
            i <= x@.len() && i <= y@.len(),
            text_lt(a@, b@) == text_lt_from(x@, y@, i as int),
            x@ == a@ && y@ == b@,
        decreases x@.len() - i,
    {
        i = i + 1;
    }
    if i >= x.len() {
        i < y.len()
    } else if i >= y.len() {
        false
    } else {
        x[i] < y[i]
    }
}

fn comes_before(x: &DiscoveredNamespace, y: &DiscoveredNamespace) -> (r: bool)
    ensures
        r == ns_before(*x, *y),
{
    if text_less(&x.subscription_name, &y.subscription_name) {
        return true;
    }
    if x.subscription_name != y.subscription_name {
        return false;
    }
    text_less(&x.name, &y.name)
}

/// The same namespaces ordered by subscription name, then by name.
pub fn sort_namespaces(v: Vec<DiscoveredNamespace>) -> (r: Vec<DiscoveredNamespace>)
    ensures
        r@.to_multiset() == v@.to_multiset(),
        ns_sorted(r@),
{
    let mut out: Vec<DiscoveredNamespace> = Vec::new();
    let mut i: usize = 0;
    assert(v@.take(0) =~= Seq::<DiscoveredNamespace>::empty());
    assert(out@ =~= Seq::<DiscoveredNamespace>::empty());
    proof {
        lemma_empty_multiset(v@.take(0));
    }
    while i < v.len()
        invariant
            i <= v@.len(),
            out@.to_multiset() == v@.take(i as int).to_multiset(),
            ns_sorted(out@),
        decreases v@.len() - i,
    {
        let x = v[i].clone_namespace();
        let mut p: usize = 0;
        while p < out.len() && !comes_before(&x, &out[p])
            invariant
                p <= out@.len(),
                forall|q: int| 0 <= q < p ==> !ns_before(x, #[trigger] out@[q]),
            decreases out@.len() - p,
        {
            p = p + 1;
        }
        let ghost before = out@;
        out.insert(p, x);
        proof {
            assert(v@.take(i + 1) == v@.take(i as int).push(v@[i as int]));
            assert forall|a: int, b: int| 0 <= a < b < out@.len() implies !ns_before(
                #[trigger] out@[b],
                #[trigger] out@[a],
            ) by {
                if b == p as int {
                    assert(out@[a] == before[a]);
                } else if a == p as int {
                    assert(out@[b] == before[b - 1]);
                    assert(ns_before(x, before[p as int]));
                    if b - 1 > p {
                        assert(!ns_before(before[b - 1], before[p as int]));
                    }
                    if ns_before(before[b - 1], x) {
                        if b - 1 > p {
                            lemma_ns_trans(before[b - 1], x, before[p as int]);
                        } else {
                            lemma_ns_asym(x, before[p as int]);
                        }
                    }
                } else {
                    let a0 = if a < p { a } else { a - 1 };
                    let b0 = if b < p { b } else { b - 1 };
                    assert(out@[a] == before[a0]);
                    assert(out@[b] == before[b0]);
                }
            }
        }
        i = i + 1;
    }
    assert(v@.take(v@.len() as int) == v@);
    out
}

impl DiscoveredNamespace {
    /// A field-by-field copy.
    pub fn clone_namespace(&self) -> (r: DiscoveredNamespace)
        ensures
            r == *self,
    {
        DiscoveredNamespace {
            fqdn: self.fqdn.clone(),
            name: self.name.clone(),
            subscription_name: self.subscription_name.clone(),
            subscription_id: self.subscription_id.clone(),
            location: self.location.clone(),
            status: self.status.clone(),
        }
    }
}

/// Whether `d` is namespace `ns` as found under the subscription of `l`.
pub open spec fn found_as(d: DiscoveredNamespace, l: SubscriptionListing, ns: NamespaceResource) -> bool {
    &&& d.fqdn@ == fqdn_spec(ns.properties.service_bus_endpoint@)
    &&& d.name == ns.name
    &&& d.subscription_name == l.subscription_name
    &&& d.subscription_id == l.subscription_id
    &&& d.location == ns.location
    &&& d.status == ns.properties.status
}

/// How many namespaces the first `k` listings found.
pub open spec fn found_count(ls: Seq<SubscriptionListing>, k: int) -> nat
    decreases k,
{
    if k <= 0 || k > ls.len() {
        0
    } else {
        found_count(ls, k - 1) + match ls[k - 1].namespaces {
            Ok(v) => v@.len(),
            Err(_) => 0,
        }
    }
}

/// Whether `g` holds, listing by listing and in order, every namespace the
/// first `k` listings found.
pub open spec fn gathered(ls: Seq<SubscriptionListing>, k: int, g: Seq<DiscoveredNamespace>) -> bool {
    &&& g.len() == found_count(ls, k)
    &&& forall|m: int, j: int|
        0 <= m < k && ls[m].namespaces is Ok && 0 <= j < ls[m].namespaces->Ok_0@.len() ==> found_as(
            #[trigger] g[found_count(ls, m) + j],
            ls[m],
            #[trigger] ls[m].namespaces->Ok_0@[j],
        )
}

/// The message recorded for a subscription whose namespaces could not be
/// listed.
pub open spec fn listing_error(name: Seq<char>, e: Seq<char>) -> Seq<char> {
    "Subscription '"@ + name + "': "@ + e
}

/// The errors of the first `k` listings, in order.
pub open spec fn listing_errors(ls: Seq<SubscriptionListing>, k: int) -> Seq<Seq<char>>
    decreases k,
{
    if k <= 0 || k > ls.len() {
        Seq::empty()
    } else {
        listing_errors(ls, k - 1) + match ls[k - 1].namespaces {
            Ok(_) => Seq::empty(),
            Err(e) => seq![listing_error(ls[k - 1].subscription_name@, e@)],
        }
    }
}

/// Merges what was listed for each subscription: every namespace found,
/// with its host name, ordered by subscription name and then by name; and a
/// message for each subscription that failed, in the order given.
pub fn collect_discovery(listings: &Vec<SubscriptionListing>) -> (r: DiscoveryResult)
    ensures
        exists|g: Seq<DiscoveredNamespace>|
            gathered(listings@, listings@.len() as int, g) && r.namespaces@.to_multiset()
                == g.to_multiset(),
        ns_sorted(r.namespaces@),
        r.errors@.map_values(|e: String| e@) == listing_errors(listings@, listings@.len() as int),
{
    let mut found: Vec<DiscoveredNamespace> = Vec::new();
    let mut errors: Vec<String> = Vec::new();
    let mut k: usize = 0;
    while k < listings.len()
        invariant
            k <= listings@.len(),
            gathered(listings@, k as int, found@),
            errors@.map_values(|e: String| e@) == listing_errors(listings@, k as int),
        decreases listings@.len() - k,
    {
        let l = &listings[k];
        let ghost base = found@;
        match &l.namespaces {
            Ok(nss) => {
                let mut j: usize = 0;
                while j < nss.len()
                    invariant
                        k < listings@.len(),
                        l == listings@[k as int],
                        l.namespaces == Ok::<Vec<NamespaceResource>, String>(*nss),
                        j <= nss@.len(),
                        found@.len() == base.len() + j,
                        found@.take(base.len() as int) == base,
                        base.len() == found_count(listings@, k as int),
                        forall|q: int| 0 <= q < j ==> found_as(#[trigger] found@[base.len() + q], *l, nss@[q]),
                    decreases nss@.len() - j,
                {
                    let ns = &nss[j];
                    let d = DiscoveredNamespace {
                        fqdn: extract_fqdn_from_endpoint(ns.properties.service_bus_endpoint.as_str()),
                        name: ns.name.clone(),
                        subscription_name: l.subscription_name.clone(),
                        subscription_id: l.subscription_id.clone(),
                        location: ns.location.clone(),
                        status: ns.properties.status.clone(),
                    };
                    found.push(d);
                    j = j + 1;
                }
                proof {
                    assert forall|m: int, q: int|
                        0 <= m < k + 1 && listings@[m].namespaces is Ok && 0 <= q
                            < listings@[m].namespaces->Ok_0@.len() implies found_as(
                        #[trigger] found@[found_count(listings@, m) + q],
                        listings@[m],
                        #[trigger] listings@[m].namespaces->Ok_0@[q],
                    ) by {
                        if m < k {
                            lemma_found_count_mono(listings@, m + 1, k as int);
                            assert(found@[found_count(listings@, m) + q] == base[found_count(listings@, m) + q]);
                        }
                    }
                }
                assert(errors@.map_values(|e: String| e@) + Seq::<Seq<char>>::empty() == errors@.map_values(|e: String| e@));
            },
            Err(e) => {
                let msg = String::from_str("Subscription '").concat(l.subscription_name.as_str()).concat("': ").concat(e.as_str());
                let ghost before = errors@.map_values(|x: String| x@);
                errors.push(msg);
                assert(errors@.map_values(|x: String| x@) == before.push(msg@));
                proof {
                    assert forall|m: int, q: int|
                        0 <= m < k + 1 && listings@[m].namespaces is Ok && 0 <= q
                            < listings@[m].namespaces->Ok_0@.len() implies found_as(
                        #[trigger] found@[found_count(listings@, m) + q],
                        listings@[m],
                        #[trigger] listings@[m].namespaces->Ok_0@[q],
                    ) by {
                        if m < k {
                            lemma_found_count_mono(listings@, m + 1, k as int);
                        }
                    }
                }
            },
        }
        k = k + 1;
    }
    let ghost g = found@;
    let namespaces = sort_namespaces(found);
    DiscoveryResult { namespaces, errors }
}

proof fn lemma_empty_multiset(s: Seq<DiscoveredNamespace>)
    requires
        s.len() == 0,
    ensures
        s.to_multiset() =~= vstd::multiset::Multiset::<DiscoveredNamespace>::empty(),
{
    assert(s =~= Seq::<DiscoveredNamespace>::empty());
    assert(s.to_multiset().len() == 0);
}

proof fn lemma_found_count_mono(ls: Seq<SubscriptionListing>, a: int, b: int)
    requires
        0 <= a <= b <= ls.len(),
    ensures
        found_count(ls, a) <= found_count(ls, b),
    decreases b - a,
{
    if a < b {
        lemma_found_count_mono(ls, a, b - 1);
    }
}

} // verus!
