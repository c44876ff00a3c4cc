//! Response headers and the cross-origin header injector.

use vstd::prelude::*;

verus! {

/// A header pair as names and values of characters.
pub type HeaderPair = (Seq<char>, Seq<char>);

/// The code that a character has once an ASCII capital letter is lowered.
pub open spec fn lower_code(c: char) -> u32 {
    let u = c as u32;
    if 65 <= u && u <= 90 {
        (u + 32) as u32
    } else {
        u
    }
}

/// Header names are compared without regard to ASCII case.
pub open spec fn same_name(a: Seq<char>, b: Seq<char>) -> bool {
    &&& a.len() == b.len()
    &&& forall|i: int| 0 <= i < a.len() ==> lower_code(#[trigger] a[i]) == lower_code(b[i])
}

/// The pairs of `ps` whose name is not `n`, in their order.
pub open spec fn without_name(ps: Seq<HeaderPair>, n: Seq<char>) -> Seq<HeaderPair>
    decreases ps.len(),
{
    if ps.len() == 0 {
        ps
    } else {
        let rest = without_name(ps.drop_last(), n);
        if same_name(ps.last().0, n) {
            rest
        } else {
            rest.push(ps.last())
        }
    }
}

/// Setting a header replaces every header of that name with the one given.
pub open spec fn with_header(ps: Seq<HeaderPair>, h: HeaderPair) -> Seq<HeaderPair> {
    without_name(ps, h.0).push(h)
}

pub open spec fn allow_origin() -> HeaderPair {
    ("Access-Control-Allow-Origin"@, "*"@)
}

pub open spec fn allow_methods() -> HeaderPair {
    ("Access-Control-Allow-Methods"@, "POST, GET, OPTIONS"@)
}

pub open spec fn allow_headers() -> HeaderPair {
    ("Access-Control-Allow-Headers"@, "*"@)
}

pub open spec fn allow_credentials() -> HeaderPair {
    ("Access-Control-Allow-Credentials"@, "true"@)
}

/// The headers after the four cross-origin headers are set, in this order.
pub open spec fn with_cors(ps: Seq<HeaderPair>) -> Seq<HeaderPair> {
    with_header(
        with_header(with_header(with_header(ps, allow_origin()), allow_methods()), allow_headers()),
        allow_credentials(),
    )
}

/// `ps` holds the pair `(n, v)` and no other header named `n`.
pub open spec fn carries_exactly(ps: Seq<HeaderPair>, n: Seq<char>, v: Seq<char>) -> bool {
    exists|i: int|
        0 <= i < ps.len() && ps[i] == (n, v) && forall|j: int|
            0 <= j < ps.len() && same_name(#[trigger] ps[j].0, n) ==> j == i
}

pub struct Header {
    pub name: String,
    pub value: String,
}

impl View for Header {
    type V = HeaderPair;

    open spec fn view(&self) -> HeaderPair {
        (self.name@, self.value@)
    }
}

impl Header {
    pub fn new(name: &str, value: &str) -> (r: Header)
        ensures
            r@ == (name@, value@),
    {
        Header { name: String::from_str(name), value: String::from_str(value) }
    }

    pub fn duplicate(&self) -> (r: Header)
        ensures
            r@ == self@,
    {
        Header { name: self.name.clone(), value: self.value.clone() }
    }
}

/// The pairs that a list of headers holds.
pub open spec fn pairs(hs: Seq<Header>) -> Seq<HeaderPair> {
    hs.map_values(|h: Header| h@)
}

/// An outgoing response: status code, headers and body text.
pub struct HttpResponse {
    pub status: u16,
    pub headers: Vec<Header>,
    pub body: String,
}

fn lower_char_code(c: char) -> (r: u32)
    ensures
        r == lower_code(c),
{
    let u = c as u32;
    if 65 <= u && u <= 90 {
        u + 32
    } else {
        u
    }
}

/// Compares two header names without regard to ASCII case.
pub fn names_match(a: &str, b: &str) -> (r: bool)
    ensures
        r == same_name(a@, b@),
{
    let n = a.unicode_len();
    if n != b.unicode_len() {
        return false;
    }
    let mut i: usize = 0;
    while i < n
        invariant
            n == a@.len(),
            n == b@.len(),
            i <= n,
            forall|k: int| 0 <= k < i ==> lower_code(#[trigger] a@[k]) == lower_code(b@[k]),
        decreases n - i,
    {
        if lower_char_code(a.get_char(i)) != lower_char_code(b.get_char(i)) {
            return false;
        }
        i = i + 1;
    }
    true
}

impl HttpResponse {
    pub fn new(status: u16, body: String) -> (r: HttpResponse)
        ensures
            r.status == status,
            r.body@ == body@,
            r.headers@.len() == 0,
    {
        HttpResponse { status, headers: Vec::new(), body }
    }

    /// Puts `h` in place of every header of the same name.
    pub fn set_header(&mut self, h: Header)
        ensures
            pairs(final(self).headers@) == with_header(pairs(old(self).headers@), h@),
            final(self).status == old(self).status,
            final(self).body == old(self).body,
    {
        let mut kept: Vec<Header> = Vec::new();
        let mut i: usize = 0;
        let ghost ps = pairs(self.headers@);
        while i < self.headers.len()
            invariant
                ps == pairs(self.headers@),
                i <= self.headers@.len(),
                pairs(kept@) == without_name(ps.take(i as int), h.name@),
            decreases self.headers@.len() - i,
        {
            proof {
                assert(ps.take(i + 1).drop_last() =~= ps.take(i as int));
            }
            if !names_match(self.headers[i].name.as_str(), h.name.as_str()) {
                let d = self.headers[i].duplicate();
                kept.push(d);
                proof {
                    assert(pairs(kept@) =~= pairs(kept@.drop_last()).push(d@));
                }
            }
            i = i + 1;
        }
        proof {
            assert(ps.take(i as int) =~= ps);
        }
        kept.push(h);
        proof {
            assert(pairs(kept@) =~= pairs(kept@.drop_last()).push(h@));
        }
        self.headers = kept;
    }
}


/// What a fairing reacts to.
pub enum FairingKind {
    Request,
    Response,
}

/// The name and kind under which a fairing is attached to the server.
pub struct FairingInfo {
    pub name: String,
    pub kind: FairingKind,
}

/// Adds permissive cross-origin headers to every outgoing response.
pub struct CORS;

impl CORS {
    pub fn info(&self) -> (r: FairingInfo)
        ensures
            r.name@ == "Add CORS headers to responses"@,
            r.kind is Response,
    {
        FairingInfo {
            name: String::from_str("Add CORS headers to responses"),
            kind: FairingKind::Response,
        }
    }

    /// Sets the four cross-origin headers on `response`, replacing any of the
    /// same names; status and body are kept.
    pub fn on_response(&self, response: &mut HttpResponse)
        ensures
            pairs(final(response).headers@) == with_cors(pairs(old(response).headers@)),
            final(response).status == old(response).status,
            final(response).body == old(response).body,
    {
        response.set_header(Header::new("Access-Control-Allow-Origin", "*"));
        response.set_header(Header::new("Access-Control-Allow-Methods", "POST, GET, OPTIONS"));
        response.set_header(Header::new("Access-Control-Allow-Headers", "*"));
        response.set_header(Header::new("Access-Control-Allow-Credentials", "true"));
    }
}

proof fn lemma_same_name_refl(a: Seq<char>)
    ensures
        same_name(a, a),
{
}

proof fn lemma_without_push(a: Seq<HeaderPair>, x: HeaderPair, n: Seq<char>)
    ensures
        without_name(a.push(x), n) == (if same_name(x.0, n) {
            without_name(a, n)
        } else {
            without_name(a, n).push(x)
        }),
{
    assert(a.push(x).drop_last() =~= a);
}

/// Every pair left by `without_name` comes from `a` and has another name.
proof fn lemma_without_elems(a: Seq<HeaderPair>, n: Seq<char>)
    ensures
        forall|i: int|
            0 <= i < without_name(a, n).len() ==> !same_name((#[trigger] without_name(a, n)[i]).0, n)
                && a.contains(without_name(a, n)[i]),
    decreases a.len(),
{
    if a.len() > 0 {
        lemma_without_elems(a.drop_last(), n);
        let r = without_name(a.drop_last(), n);
        assert forall|i: int| 0 <= i < r.len() implies a.contains(#[trigger] r[i]) by {
            let k = choose|k: int| 0 <= k < a.drop_last().len() && a.drop_last()[k] == r[i];
            assert(a[k] == r[i]);
        }
        assert(a[a.len() - 1] == a.last());
    }
}

/// Removing a name that no pair of `a` has leaves `a` as it is.
proof fn lemma_without_absent(a: Seq<HeaderPair>, n: Seq<char>)
    requires
        forall|i: int| 0 <= i < a.len() ==> !same_name(#[trigger] a[i].0, n),
    ensures
        without_name(a, n) == a,
    decreases a.len(),
{
    if a.len() > 0 {
        lemma_without_absent(a.drop_last(), n);
        assert(a.drop_last().push(a.last()) =~= a);
    }
}

proof fn lemma_cors_names_distinct()
    ensures
        !same_name(allow_origin().0, allow_methods().0),
        !same_name(allow_origin().0, allow_headers().0),
        !same_name(allow_origin().0, allow_credentials().0),
        !same_name(allow_methods().0, allow_origin().0),
        !same_name(allow_methods().0, allow_headers().0),
        !same_name(allow_methods().0, allow_credentials().0),
        !same_name(allow_headers().0, allow_origin().0),
        !same_name(allow_headers().0, allow_methods().0),
        !same_name(allow_headers().0, allow_credentials().0),
        !same_name(allow_credentials().0, allow_origin().0),
        !same_name(allow_credentials().0, allow_methods().0),
        !same_name(allow_credentials().0, allow_headers().0),
{
    reveal_strlit("Access-Control-Allow-Origin");
    reveal_strlit("Access-Control-Allow-Methods");
    reveal_strlit("Access-Control-Allow-Headers");
    reveal_strlit("Access-Control-Allow-Credentials");
    assert(lower_code(allow_methods().0[21]) != lower_code(allow_headers().0[21]));
    assert(lower_code(allow_headers().0[21]) != lower_code(allow_methods().0[21]));
}

/// The headers of `ps` that bear none of the four cross-origin names.
pub open spec fn without_cors(ps: Seq<HeaderPair>) -> Seq<HeaderPair> {
    without_name(
        without_name(
            without_name(without_name(ps, allow_origin().0), allow_methods().0),
            allow_headers().0,
        ),
        allow_credentials().0,
    )
}

proof fn lemma_with_cors_shape(ps: Seq<HeaderPair>)
    ensures
        with_cors(ps) == without_cors(ps).push(allow_origin()).push(allow_methods()).push(
            allow_headers(),
        ).push(allow_credentials()),
{
    lemma_cors_names_distinct();
    let o = allow_origin();
    let m = allow_methods();
    let h = allow_headers();
    let c = allow_credentials();
    let w1 = without_name(ps, o.0);
    let w2 = without_name(w1, m.0);
    let w3 = without_name(w2, h.0);
    lemma_without_push(w1, o, m.0);
    lemma_without_push(w2.push(o), m, h.0);
    lemma_without_push(w2, o, h.0);
    lemma_without_push(w3.push(o).push(m), h, c.0);
    lemma_without_push(w3.push(o), m, c.0);
    lemma_without_push(w3, o, c.0);
}

/// No header left by `without_cors` bears a cross-origin name, and each
/// comes from `ps`.
proof fn lemma_without_cors_elems(ps: Seq<HeaderPair>)
    ensures
        forall|i: int|
            0 <= i < without_cors(ps).len() ==> {
                let n = (#[trigger] without_cors(ps)[i]).0;
                &&& !same_name(n, allow_origin().0)
                &&& !same_name(n, allow_methods().0)
                &&& !same_name(n, allow_headers().0)
                &&& !same_name(n, allow_credentials().0)
            },
{
    let w1 = without_name(ps, allow_origin().0);
    let w2 = without_name(w1, allow_methods().0);
    let w3 = without_name(w2, allow_headers().0);
    let w4 = without_name(w3, allow_credentials().0);
    lemma_without_elems(ps, allow_origin().0);
    lemma_without_elems(w1, allow_methods().0);
    lemma_without_elems(w2, allow_headers().0);
    lemma_without_elems(w3, allow_credentials().0);
    assert forall|i: int| 0 <= i < w4.len() implies {
        let n = (#[trigger] w4[i]).0;
        &&& !same_name(n, allow_origin().0)
        &&& !same_name(n, allow_methods().0)
        &&& !same_name(n, allow_headers().0)
        &&& !same_name(n, allow_credentials().0)
    } by {
        assert(w3.contains(w4[i]));
        let k3 = choose|k: int| 0 <= k < w3.len() && w3[k] == w4[i];
        assert(w2.contains(w3[k3]));
        let k2 = choose|k: int| 0 <= k < w2.len() && w2[k] == w3[k3];
        assert(w1.contains(w2[k2]));
        let k1 = choose|k: int| 0 <= k < w1.len() && w1[k] == w2[k2];
        assert(!same_name(w1[k1].0, allow_origin().0));
        assert(!same_name(w2[k2].0, allow_methods().0));
        assert(!same_name(w3[k3].0, allow_headers().0));
    }
}

/// After the injector runs, each of the four cross-origin headers is present
/// exactly once, with its fixed value, whatever headers the response had.
pub proof fn lemma_cors_headers_present(ps: Seq<HeaderPair>)
    ensures
        carries_exactly(with_cors(ps), allow_origin().0, allow_origin().1),
        carries_exactly(with_cors(ps), allow_methods().0, allow_methods().1),
        carries_exactly(with_cors(ps), allow_headers().0, allow_headers().1),
        carries_exactly(with_cors(ps), allow_credentials().0, allow_credentials().1),
{
    lemma_with_cors_shape(ps);
    lemma_without_cors_elems(ps);
    lemma_cors_names_distinct();
    lemma_same_name_refl(allow_origin().0);
    lemma_same_name_refl(allow_methods().0);
    lemma_same_name_refl(allow_headers().0);
    lemma_same_name_refl(allow_credentials().0);
    let w = without_cors(ps);
    let q = with_cors(ps);
    let l = w.len() as int;
    assert(q[l] == allow_origin());
    assert(q[l + 1] == allow_methods());
    assert(q[l + 2] == allow_headers());
    assert(q[l + 3] == allow_credentials());
    assert(forall|j: int| 0 <= j < l ==> q[j] == w[j]);
}

/// Running the injector twice gives the same headers as running it once.
pub proof fn lemma_cors_idempotent(ps: Seq<HeaderPair>)
    ensures
        with_cors(with_cors(ps)) == with_cors(ps),
{
    let w = without_cors(ps);
    lemma_with_cors_shape(ps);
    lemma_with_cors_shape(with_cors(ps));
    lemma_without_cors_elems(ps);
    lemma_cors_names_distinct();
    lemma_same_name_refl(allow_origin().0);
    lemma_same_name_refl(allow_methods().0);
    lemma_same_name_refl(allow_headers().0);
    lemma_same_name_refl(allow_credentials().0);
    let o = allow_origin();
    let m = allow_methods();
    let h = allow_headers();
    let c = allow_credentials();
    // the four appended headers are dropped again
    let q = with_cors(ps);
    lemma_without_push(w.push(o).push(m).push(h), c, o.0);
    lemma_without_push(w.push(o).push(m), h, o.0);
    lemma_without_push(w.push(o), m, o.0);
    lemma_without_push(w, o, o.0);
    let w1 = without_name(w, o.0);
    lemma_without_push(w1.push(m).push(h), c, m.0);
    lemma_without_push(w1.push(m), h, m.0);
    lemma_without_push(w1, m, m.0);
    let w2 = without_name(w1, m.0);
    lemma_without_push(w2.push(h), c, h.0);
    lemma_without_push(w2, h, h.0);
    let w3 = without_name(w2, h.0);
    lemma_without_push(w3, c, c.0);
    // and what was left before bears none of the four names
    lemma_without_absent(w, o.0);
    lemma_without_absent(w, m.0);
    lemma_without_absent(w, h.0);
    lemma_without_absent(w, c.0);
    assert(without_cors(q) == w);
}

} // verus!
