//! A builder for the optional parameters of a search request.
use vstd::prelude::*;

verus! {

/// One parameter appended to a search query.
pub enum QueryParam {
    /// `&filter[key]=value`
    Filter(Seq<char>, Seq<char>),
    /// `&page[limit]=n`
    Limit(u64),
    /// `&page[offset]=n`
    Offset(u64),
    /// `&sort=spec`
    Sort(Seq<char>),
}

/// The character of a decimal digit.
pub open spec fn digit_char(d: nat) -> char {
    if d == 0 { '0' }
    else if d == 1 { '1' }
    else if d == 2 { '2' }
    else if d == 3 { '3' }
    else if d == 4 { '4' }
    else if d == 5 { '5' }
    else if d == 6 { '6' }
    else if d == 7 { '7' }
    else if d == 8 { '8' }
    else { '9' }
}

/// The decimal rendering of `n`, without leading zeros.
pub open spec fn decimal(n: nat) -> Seq<char>
    decreases n,
{
    if n < 10 {
        seq![digit_char(n)]
    } else {
        decimal(n / 10).push(digit_char(n % 10))
    }
}

/// The text that one parameter adds to the query.
pub open spec fn segment(p: QueryParam) -> Seq<char> {
    match p {
        QueryParam::Filter(k, v) => "&filter["@ + k + "]="@ + v,
        QueryParam::Limit(n) => "&page[limit]="@ + decimal(n as nat),
        QueryParam::Offset(n) => "&page[offset]="@ + decimal(n as nat),
        QueryParam::Sort(s) => "&sort="@ + s,
    }
}

/// The query text for a sequence of parameters: their segments, in order.
pub open spec fn render(ps: Seq<QueryParam>) -> Seq<char>
    decreases ps.len(),
{
    if ps.len() == 0 {
        Seq::empty()
    } else {
        render(ps.drop_last()) + segment(ps.last())
    }
}

/// Rendering distributes over concatenation of parameter sequences.
pub proof fn lemma_render_concat(ps: Seq<QueryParam>, qs: Seq<QueryParam>)
    ensures
        render(ps + qs) == render(ps) + render(qs),
    decreases qs.len(),
{
    if qs.len() == 0 {
        assert(ps + qs == ps);
        assert(render(ps) + render(qs) == render(ps));
    } else {
        lemma_render_concat(ps, qs.drop_last());
        assert((ps + qs).drop_last() == ps + qs.drop_last());
        assert((ps + qs).last() == qs.last());
        assert(render(ps + qs) == render(ps) + render(qs.drop_last()) + segment(qs.last()));
    }
}

/// Every call leaves exactly its own segment in the rendered query, at its place in
/// call order: the segment of the `i`-th parameter stands between the rendering of the
/// parameters before it and the rendering of those after it, with nothing merged,
/// dropped or reordered.
pub proof fn lemma_segment_in_order(ps: Seq<QueryParam>, i: int)
    requires
        0 <= i < ps.len(),
    ensures
        render(ps) == render(ps.take(i)) + segment(ps[i]) + render(ps.skip(i + 1)),
        render(ps).len() == render(ps.take(i)).len() + segment(ps[i]).len()
            + render(ps.skip(i + 1)).len(),
{
    let pre = ps.take(i);
    let one = seq![ps[i]];
    let post = ps.skip(i + 1);
    assert(ps == pre + one + post);
    lemma_render_concat(pre + one, post);
    lemma_render_concat(pre, one);
    assert(one.drop_last() == Seq::<QueryParam>::empty());
    assert(render(one) == render(Seq::<QueryParam>::empty()) + segment(ps[i]));
    assert(render(one) == segment(ps[i]));
}

/// The text of one decimal digit.
fn digit_str(d: u64) -> (r: &'static str)
    requires
        d < 10,
    ensures
        r@ == seq![digit_char(d as nat)],
{
    proof {
        reveal_strlit("0");
        reveal_strlit("1");
        reveal_strlit("2");
        reveal_strlit("3");
        reveal_strlit("4");
        reveal_strlit("5");
        reveal_strlit("6");
        reveal_strlit("7");
        reveal_strlit("8");
        reveal_strlit("9");
    }
    if d == 0 { "0" }
    else if d == 1 { "1" }
    else if d == 2 { "2" }
    else if d == 3 { "3" }
    else if d == 4 { "4" }
    else if d == 5 { "5" }
    else if d == 6 { "6" }
    else if d == 7 { "7" }
    else if d == 8 { "8" }
    else { "9" }
}

/// Appends the decimal rendering of `n` to `s`.
pub fn push_decimal(s: &mut String, n: u64)
    ensures
        final(s)@ == old(s)@ + decimal(n as nat),
    decreases n,
{
    if n >= 10 {
        push_decimal(s, n / 10);
    }
    s.append(digit_str(n % 10));
    proof {
        if n >= 10 {
            assert(decimal(n as nat) == decimal((n / 10) as nat).push(digit_char((n % 10) as nat)));
        }
    }
}

/// Filters, pagination and sorting for a search, rendered as query text.
///
/// Each call appends one parameter; nothing is validated, escaped or merged.
pub struct Search {
    query: String,
    params: Ghost<Seq<QueryParam>>,
}

impl View for Search {
    type V = Seq<QueryParam>;

    closed spec fn view(&self) -> Seq<QueryParam> {
        self.params@
    }
}

impl Search {
    #[verifier::type_invariant]
    spec fn inv(self) -> bool {
        self.query@ == render(self.params@)
    }

    /// An empty query.
    pub fn new() -> (r: Search)
        ensures
            r@ == Seq::<QueryParam>::empty(),
    {
        Search { query: String::new(), params: Ghost(Seq::empty()) }
    }

    fn with(self, piece: &str, p: Ghost<QueryParam>) -> (r: Search)
        requires
            piece@ == segment(p@),
        ensures
            r@ == self@.push(p@),
    {
        proof {
            use_type_invariant(&self);
        }
        let mut q = self.query;
        q.append(piece);
        let ghost ps = self.params@.push(p@);
        proof {
            assert(ps.drop_last() =~= self.params@);
        }
        Search { query: q, params: Ghost(ps) }
    }

    /// Filters results by a key and value: appends `&filter[key]=value`.
    pub fn filter(self, key: &str, value: &str) -> (r: Search)
        ensures
            r@ == self@.push(QueryParam::Filter(key@, value@)),
    {
        let mut piece = String::from_str("&filter[");
        piece.append(key);
        piece.append("]=");
        piece.append(value);
        self.with(piece.as_str(), Ghost(QueryParam::Filter(key@, value@)))
    }

    /// Sets the number of results a page holds: appends `&page[limit]=n`.
    pub fn limit(self, limit: u64) -> (r: Search)
        ensures
            r@ == self@.push(QueryParam::Limit(limit)),
    {
        let mut piece = String::from_str("&page[limit]=");
        push_decimal(&mut piece, limit);
        self.with(piece.as_str(), Ghost(QueryParam::Limit(limit)))
    }

    /// Sets how many results to skip: appends `&page[offset]=n`.
    pub fn offset(self, offset: u64) -> (r: Search)
        ensures
            r@ == self@.push(QueryParam::Offset(offset)),
    {
        let mut piece = String::from_str("&page[offset]=");
        push_decimal(&mut piece, offset);
        self.with(piece.as_str(), Ghost(QueryParam::Offset(offset)))
    }

    /// Sets a sorting order by fields: appends `&sort=spec`.
    ///
    /// `id` sorts ascending, `-id` descending; several are joined with `,`.
    pub fn sort(self, sort: &str) -> (r: Search)
        ensures
            r@ == self@.push(QueryParam::Sort(sort@)),
    {
        let mut piece = String::from_str("&sort=");
        piece.append(sort);
        self.with(piece.as_str(), Ghost(QueryParam::Sort(sort@)))
    }

    /// The rendered query text.
    pub fn as_str(&self) -> (r: &str)
        ensures
            r@ == render(self@),
    {
        proof {
            use_type_invariant(self);
        }
        self.query.as_str()
    }
}

impl Default for Search {
    fn default() -> (r: Search)
        ensures
            r@ == Seq::<QueryParam>::empty(),
    {
        Search::new()
    }
}

} // verus!
