use vstd::prelude::*;

use crate::error::MemoryError;
use crate::events::{MAX_ACTOR_ID_LEN, MAX_PAGE_LIMIT};
use crate::memories::{
    opt_embedding_problem, validate_embedding, EmbeddingInfo, Memory, MAX_NAMESPACE_LEN,
    MAX_STRATEGY_LEN,
};
use crate::validation::{
    clamp_u32, clamped, first_problem, invalid, max_len_problem, non_empty_problem, outcome,
    reports, validate_max_len, validate_non_empty,
};
use crate::text::{
    char_is_alphanumeric, char_is_whitespace, chars_of, is_alphanumeric, is_whitespace,
    string_from_chars, utf8_len,
};

verus! {

/// Longest search query accepted, in bytes.
pub const MAX_QUERY_LEN: usize = 4096;

/// Most tokens a sanitized full-text query keeps.
pub const MAX_FTS_TOKENS: usize = 64;

/// How many nearest-neighbour candidates a vector search requests per
/// result: the vector index filters by actor, namespace, strategy and
/// validity only after the neighbour search.
pub const VECTOR_OVERFETCH_FACTOR: u32 = 4;

/// Most nearest-neighbour candidates a vector search requests.
pub const MAX_K_OVERFETCH: u32 = 1000;

/// The number of nearest-neighbour candidates a vector search for `limit`
/// results requests: `limit * VECTOR_OVERFETCH_FACTOR`, at most `MAX_K_OVERFETCH`.
pub fn knn_candidates(limit: u32) -> (r: u32)
    ensures
        r == min_nat((limit * VECTOR_OVERFETCH_FACTOR) as nat, MAX_K_OVERFETCH as nat),
{
    if limit >= MAX_K_OVERFETCH / VECTOR_OVERFETCH_FACTOR {
        MAX_K_OVERFETCH
    } else {
        limit * VECTOR_OVERFETCH_FACTOR
    }
}

// ---------------------------------------------------------------------------
// Full-text query sanitization
// ---------------------------------------------------------------------------

/// Characters a full-text token keeps: alphanumerics and the underscore.
pub open spec fn fts_keeps(c: char) -> bool {
    char_is_alphanumeric(c) || c == '_'
}

/// Scanning `s` from the left: the tokens finished so far and the token being built.
/// Whitespace ends a token; characters that are neither whitespace nor kept are dropped.
pub open spec fn fts_scan(s: Seq<char>) -> (Seq<Seq<char>>, Seq<char>)
    decreases s.len(),
{
    if s.len() == 0 {
        (seq![], seq![])
    } else {
        let prev = fts_scan(s.drop_last());
        let c = s.last();
        if char_is_whitespace(c) {
            (if prev.1.len() > 0 { prev.0.push(prev.1) } else { prev.0 }, seq![])
        } else if fts_keeps(c) {
            (prev.0, prev.1.push(c))
        } else {
            prev
        }
    }
}

/// The searchable tokens of a query: each whitespace-separated word with
/// every character other than alphanumerics and `_` removed, empty words dropped.
pub open spec fn fts_tokens(s: Seq<char>) -> Seq<Seq<char>> {
    let st = fts_scan(s);
    if st.1.len() > 0 {
        st.0.push(st.1)
    } else {
        st.0
    }
}

/// A token wrapped in double quotes, which FTS5 reads as a literal string.
pub open spec fn quoted(t: Seq<char>) -> Seq<char> {
    seq!['"'] + t + seq!['"']
}

/// Quoted tokens separated by single spaces.
pub open spec fn join_quoted(ts: Seq<Seq<char>>) -> Seq<char>
    decreases ts.len(),
{
    if ts.len() == 0 {
        seq![]
    } else if ts.len() == 1 {
        quoted(ts[0])
    } else {
        join_quoted(ts.drop_last()) + seq![' '] + quoted(ts.last())
    }
}

pub open spec fn min_nat(a: nat, b: nat) -> nat {
    if a <= b {
        a
    } else {
        b
    }
}

/// The FTS5 MATCH expression for a user query: its first `MAX_FTS_TOKENS`
/// tokens, quoted; `None` when the query has no searchable token.
pub open spec fn sanitized_fts_query(s: Seq<char>) -> Option<Seq<char>> {
    let ts = fts_tokens(s);
    if ts.len() == 0 {
        None
    } else {
        Some(join_quoted(ts.take(min_nat(ts.len(), MAX_FTS_TOKENS as nat) as int)))
    }
}

fn push_quoted(out: &mut Vec<char>, tok: &Vec<char>, sep: bool)
    ensures
        final(out)@ == old(out)@ + (if sep { seq![' '] } else { seq![] }) + quoted(tok@),
{
    let ghost start = out@;
    if sep {
        out.push(' ');
    }
    let ghost mid = out@;
    out.push('"');
    let mut k: usize = 0;
    while k < tok.len()
        invariant
            k <= tok@.len(),
            out@ == mid + seq!['"'] + tok@.take(k as int),
        decreases tok@.len() - k,
    {
        out.push(tok[k]);
        assert(tok@.take(k + 1) == tok@.take(k as int).push(tok@[k as int]));
        k = k + 1;
    }
    out.push('"');
    assert(tok@.take(tok@.len() as int) == tok@);
    assert(out@ =~= start + (if sep { seq![' '] } else { seq![] }) + quoted(tok@));
}

proof fn lemma_join_push(d: Seq<Seq<char>>, t: Seq<char>)
    ensures
        join_quoted(d.push(t)) == (if d.len() == 0 { quoted(t) } else { join_quoted(d) + seq![
            ' ',
        ] + quoted(t) }),
{
    assert(d.push(t).drop_last() =~= d);
}

/// Sanitizes user input for an FTS5 MATCH: keeps alphanumerics and `_` of
/// each whitespace-separated word, drops empty words, keeps at most
/// `MAX_FTS_TOKENS` words and quotes each one.  `None` when no word remains.
pub fn sanitize_fts_query(input: &str) -> (r: Option<String>)
    ensures
        r is None <==> sanitized_fts_query(input@) is None,
        r matches Some(q) ==> sanitized_fts_query(input@) == Some(q@),
{
    let chars = chars_of(input);
    let mut out: Vec<char> = Vec::new();
    let mut count: usize = 0;
    let mut cur: Vec<char> = Vec::new();
    let mut i: usize = 0;
    assert(chars@.take(0) =~= Seq::<char>::empty());
    while i < chars.len()
        invariant
            chars@ == input@,
            i <= chars@.len(),
            count + cur@.len() <= i,
            cur@ == fts_scan(chars@.take(i as int)).1,
            count == fts_scan(chars@.take(i as int)).0.len(),
            out@ == join_quoted(
                fts_scan(chars@.take(i as int)).0.take(min_nat(count as nat, 64) as int),
            ),
        decreases chars@.len() - i,
    {
        let ghost before = fts_scan(chars@.take(i as int));
        let c = chars[i];
        assert(chars@.take(i + 1).drop_last() =~= chars@.take(i as int));
        assert(chars@.take(i + 1).last() == c);
        if is_whitespace(c) {
            if cur.len() > 0 {
                proof {
                    assert(before.0.take(count as int) =~= before.0);
                    assert(before.0.push(cur@).take(min_nat((count + 1) as nat, 64) as int)
                        =~= if count < 64 {
                        before.0.push(cur@)
                    } else {
                        before.0.take(64)
                    });
                    lemma_join_push(before.0, cur@);
                }
                if count < 64 {
                    push_quoted(&mut out, &cur, count > 0);
                }
                count = count + 1;
                cur = Vec::new();
            }
        } else if is_alphanumeric(c) || c == '_' {
            cur.push(c);
        }
        i = i + 1;
    }
    assert(chars@.take(chars@.len() as int) =~= chars@);
    let ghost fin = fts_scan(chars@);
    assert(count == fin.0.len());
    assert(cur@ == fin.1);
    if cur.len() > 0 {
        proof {
            assert(fin.0.take(count as int) =~= fin.0);
            if count < 64 {
                assert(fin.0.push(cur@).take(min_nat((count + 1) as nat, 64) as int) =~= fin.0.push(
                    cur@,
                ));
            } else {
                assert(fin.0.push(cur@).take(min_nat((count + 1) as nat, 64) as int) =~= fin.0.take(
                    64,
                ));
            }
            lemma_join_push(fin.0, cur@);
        }
        if count < 64 {
            push_quoted(&mut out, &cur, count > 0);
        }
        count = count + 1;
    }
    if count == 0 {
        None
    } else {
        Some(string_from_chars(&out))
    }
}


/// A character a sanitized query may hold: a double quote, a space, or a
/// token character.
pub open spec fn inert_char(c: char) -> bool {
    c == '"' || c == ' ' || fts_keeps(c)
}

/// A character a token keeps that does not separate tokens.
pub open spec fn plain_char(c: char) -> bool {
    fts_keeps(c) && !char_is_whitespace(c)
}

/// A token of a sanitized query: non-empty and made of token characters.
pub open spec fn plain_token(t: Seq<char>) -> bool {
    t.len() > 0 && forall|i: int| 0 <= i < t.len() ==> plain_char(#[trigger] t[i])
}

/// Nothing in `s` survives sanitization: each character is dropped or is a
/// separator.
pub open spec fn nothing_searchable(s: Seq<char>) -> bool {
    forall|i: int| 0 <= i < s.len() ==> !fts_keeps(#[trigger] s[i]) || char_is_whitespace(s[i])
}

proof fn lemma_scan_tokens(s: Seq<char>)
    ensures
        forall|k: int| 0 <= k < fts_scan(s).0.len() ==> plain_token(#[trigger] fts_scan(s).0[k]),
        forall|i: int| 0 <= i < fts_scan(s).1.len() ==> plain_char(#[trigger] fts_scan(s).1[i]),
        (fts_scan(s).0.len() == 0 && fts_scan(s).1.len() == 0) <==> nothing_searchable(s),
    decreases s.len(),
{
    if s.len() > 0 {
        let t = s.drop_last();
        lemma_scan_tokens(t);
        let c = s.last();
        assert forall|i: int| 0 <= i < t.len() implies t[i] == s[i] by {}
        if nothing_searchable(s) {
            assert(nothing_searchable(t)) by {
                assert forall|i: int| 0 <= i < t.len() implies !fts_keeps(#[trigger] t[i])
                    || char_is_whitespace(t[i]) by {
                    assert(t[i] == s[i]);
                }
            }
        }
        if !char_is_whitespace(c) && !fts_keeps(c) {
            if nothing_searchable(t) {
                assert forall|i: int| 0 <= i < s.len() implies !fts_keeps(#[trigger] s[i])
                    || char_is_whitespace(s[i]) by {
                    if i < t.len() {
                        assert(t[i] == s[i]);
                    }
                }
            }
        }
        if char_is_whitespace(c) {
            if nothing_searchable(t) {
                assert forall|i: int| 0 <= i < s.len() implies !fts_keeps(#[trigger] s[i])
                    || char_is_whitespace(s[i]) by {
                    if i < t.len() {
                        assert(t[i] == s[i]);
                    }
                }
            }
            let prev = fts_scan(t);
            if prev.1.len() > 0 {
                assert forall|k: int| 0 <= k < prev.0.push(prev.1).len() implies plain_token(
                    #[trigger] prev.0.push(prev.1)[k],
                ) by {
                    if k < prev.0.len() {
                        assert(prev.0.push(prev.1)[k] == prev.0[k]);
                    }
                }
            }
        } else if fts_keeps(c) {
            assert(!nothing_searchable(s)) by {
                assert(s[s.len() - 1] == c);
            }
            let prev = fts_scan(t);
            assert forall|i: int| 0 <= i < prev.1.push(c).len() implies plain_char(
                #[trigger] prev.1.push(c)[i],
            ) by {
                if i < prev.1.len() {
                    assert(prev.1.push(c)[i] == prev.1[i]);
                }
            }
        }
    }
}

proof fn lemma_join_inert(ts: Seq<Seq<char>>)
    requires
        forall|k: int| 0 <= k < ts.len() ==> plain_token(#[trigger] ts[k]),
    ensures
        forall|i: int| 0 <= i < join_quoted(ts).len() ==> inert_char(#[trigger] join_quoted(ts)[i]),
        ts.len() > 0 ==> join_quoted(ts).len() > 0,
    decreases ts.len(),
{
    if ts.len() == 1 {
        let q = quoted(ts[0]);
        assert(plain_token(ts[0]));
        assert forall|i: int| 0 <= i < q.len() implies inert_char(#[trigger] q[i]) by {
            if 0 < i < q.len() - 1 {
                assert(q[i] == ts[0][i - 1]);
            }
        }
    } else if ts.len() > 1 {
        let d = ts.drop_last();
        assert forall|k: int| 0 <= k < d.len() implies plain_token(#[trigger] d[k]) by {
            assert(d[k] == ts[k]);
        }
        lemma_join_inert(d);
        let q = quoted(ts.last());
        assert(plain_token(ts[ts.len() - 1]));
        let j = join_quoted(d) + seq![' '] + q;
        assert forall|i: int| 0 <= i < j.len() implies inert_char(#[trigger] j[i]) by {
            let n = join_quoted(d).len() as int;
            if i < n {
                assert(j[i] == join_quoted(d)[i]);
            } else if i > n + 1 && i < j.len() - 1 {
                assert(j[i] == ts.last()[i - n - 2]);
            }
        }
    }
}

proof fn lemma_scan_push(s: Seq<char>, c: char)
    ensures
        fts_scan(s.push(c)) == (if char_is_whitespace(c) {
            (
                if fts_scan(s).1.len() > 0 {
                    fts_scan(s).0.push(fts_scan(s).1)
                } else {
                    fts_scan(s).0
                },
                seq![],
            )
        } else if fts_keeps(c) {
            (fts_scan(s).0, fts_scan(s).1.push(c))
        } else {
            fts_scan(s)
        }),
{
    assert(s.push(c).drop_last() =~= s);
}

proof fn lemma_scan_plain(s: Seq<char>, t: Seq<char>)
    requires
        forall|i: int| 0 <= i < t.len() ==> plain_char(#[trigger] t[i]),
    ensures
        fts_scan(s + t) == (fts_scan(s).0, fts_scan(s).1 + t),
    decreases t.len(),
{
    if t.len() == 0 {
        assert(s + t =~= s);
        assert(fts_scan(s).1 + t =~= fts_scan(s).1);
    } else {
        let u = t.drop_last();
        let c = t.last();
        assert(plain_char(t[t.len() - 1]));
        assert forall|i: int| 0 <= i < u.len() implies plain_char(#[trigger] u[i]) by {
            assert(u[i] == t[i]);
        }
        lemma_scan_plain(s, u);
        assert(s + t =~= (s + u).push(c));
        lemma_scan_push(s + u, c);
        assert((fts_scan(s).1 + u).push(c) =~= fts_scan(s).1 + t);
    }
}

proof fn lemma_scan_join(ts: Seq<Seq<char>>)
    requires
        ts.len() > 0,
        forall|k: int| 0 <= k < ts.len() ==> plain_token(#[trigger] ts[k]),
    ensures
        fts_scan(join_quoted(ts)) == (ts.drop_last(), ts.last()),
    decreases ts.len(),
{
    let t = ts.last();
    assert(plain_token(ts[ts.len() - 1]));
    // the characters '"' and ' ': ASCII, not letters or digits
    assert(!char_is_whitespace('"') && !fts_keeps('"'));
    assert(char_is_whitespace(' '));
    let (head, before): (Seq<char>, (Seq<Seq<char>>, Seq<char>)) = if ts.len() == 1 {
        (seq!['"'], (seq![], seq![]))
    } else {
        let d = ts.drop_last();
        assert forall|k: int| 0 <= k < d.len() implies plain_token(#[trigger] d[k]) by {
            assert(d[k] == ts[k]);
        }
        lemma_scan_join(d);
        assert(plain_token(d[d.len() - 1]));
        lemma_scan_push(join_quoted(d), ' ');
        assert(d.drop_last().push(d.last()) =~= d);
        lemma_scan_push(join_quoted(d).push(' '), '"');
        (join_quoted(d).push(' ').push('"'), (d, seq![]))
    };
    if ts.len() == 1 {
        lemma_scan_push(seq![], '"');
        assert(seq![].push('"') =~= seq!['"']);
        assert(fts_scan(Seq::<char>::empty()) == (Seq::<Seq<char>>::empty(), Seq::<char>::empty()));
    }
    assert(fts_scan(head) == before);
    assert forall|i: int| 0 <= i < t.len() implies plain_char(#[trigger] t[i]) by {}
    lemma_scan_plain(head, t);
    lemma_scan_push(head + t, '"');
    assert(before.1 + t =~= t);
    assert(join_quoted(ts) =~= (head + t).push('"'));
    assert(before.0 =~= ts.drop_last());
}

/// Sanitizing is idempotent: a sanitized query, sanitized again, comes back
/// unchanged.
pub proof fn law_sanitizing_is_idempotent(s: Seq<char>)
    ensures
        sanitized_fts_query(s) matches Some(q) ==> sanitized_fts_query(q) == Some(q),
{
    lemma_scan_tokens(s);
    let st = fts_scan(s);
    let ts = fts_tokens(s);
    if ts.len() > 0 {
        assert forall|k: int| 0 <= k < ts.len() implies plain_token(#[trigger] ts[k]) by {
            if st.1.len() > 0 && k == st.0.len() {
                assert(ts[k] == st.1);
            } else {
                assert(ts[k] == st.0[k]);
            }
        }
        let kept = ts.take(min_nat(ts.len(), MAX_FTS_TOKENS as nat) as int);
        assert forall|k: int| 0 <= k < kept.len() implies plain_token(#[trigger] kept[k]) by {
            assert(kept[k] == ts[k]);
        }
        let q = join_quoted(kept);
        lemma_scan_join(kept);
        assert(plain_token(kept[kept.len() - 1]));
        assert(fts_tokens(q) =~= kept);
        assert(kept.take(min_nat(kept.len(), MAX_FTS_TOKENS as nat) as int) =~= kept);
    }
}

/// What the full-text search is given of a user query is a space-separated
/// list of double-quoted tokens, each non-empty and made only of
/// alphanumerics and `_`, at most `MAX_FTS_TOKENS` of them: FTS5 operators
/// and syntax (`*`, `-`, `:`, `^`, parentheses, bare keywords) never reach
/// the MATCH expression.  A query yields nothing to search exactly when each
/// of its characters is dropped or is whitespace.
pub proof fn law_sanitized_query_is_quoted_tokens(s: Seq<char>)
    ensures
        sanitized_fts_query(s) is None <==> nothing_searchable(s),
        sanitized_fts_query(s) matches Some(q) ==> {
            &&& q.len() > 0
            &&& forall|i: int| 0 <= i < q.len() ==> inert_char(#[trigger] q[i])
            &&& exists|ts: Seq<Seq<char>>|
                {
                    &&& 1 <= ts.len() <= MAX_FTS_TOKENS
                    &&& forall|k: int| 0 <= k < ts.len() ==> plain_token(#[trigger] ts[k])
                    &&& q == join_quoted(ts)
                }
        },
{
    lemma_scan_tokens(s);
    let st = fts_scan(s);
    let ts = fts_tokens(s);
    assert forall|k: int| 0 <= k < ts.len() implies plain_token(#[trigger] ts[k]) by {
        if st.1.len() > 0 && k == st.0.len() {
            assert(ts[k] == st.1);
        } else {
            assert(ts[k] == st.0[k]);
        }
    }
    if ts.len() > 0 {
        let kept = ts.take(min_nat(ts.len(), MAX_FTS_TOKENS as nat) as int);
        assert forall|k: int| 0 <= k < kept.len() implies plain_token(#[trigger] kept[k]) by {
            assert(kept[k] == ts[k]);
        }
        lemma_join_inert(kept);
    }
}


// ---------------------------------------------------------------------------
// Reciprocal rank fusion
// ---------------------------------------------------------------------------

/// Smoothing constant of reciprocal rank fusion (Cormack et al., 2009): a
/// record at 1-based rank `r` of a result list contributes `1 / (RRF_K + r)`.
pub const RRF_K: u64 = 60;

/// Longest result list the fusion accepts: its exact score arithmetic is
/// carried out in 128-bit integers.
pub const MAX_FUSION_LIST_LEN: usize = 0xffff_ffff;

/// A record of a fused result: the record, and its 1-based rank in the
/// full-text and in the vector result list, where it occurs.
pub struct RankedMemory {
    pub memory: Memory,
    pub fts_rank: Option<usize>,
    pub vector_rank: Option<usize>,
}

pub open spec fn ids_of(ms: Seq<Memory>) -> Seq<Seq<char>> {
    ms.map_values(|m: Memory| m.id@)
}

/// Index of the first occurrence of `id` in `ids`.
pub open spec fn position_of(ids: Seq<Seq<char>>, id: Seq<char>) -> Option<nat>
    decreases ids.len(),
{
    if ids.len() == 0 {
        None
    } else if ids[0] == id {
        Some(0nat)
    } else {
        match position_of(ids.drop_first(), id) {
            Some(p) => Some(p + 1),
            None => None,
        }
    }
}

/// 1-based rank of `id` in a result list, if it occurs there.
pub open spec fn rank_of(ids: Seq<Seq<char>>, id: Seq<char>) -> Option<nat> {
    match position_of(ids, id) {
        Some(p) => Some(p + 1),
        None => None,
    }
}

pub open spec fn opt_nat(o: Option<usize>) -> Option<nat> {
    match o {
        Some(x) => Some(x as nat),
        None => None,
    }
}

/// Numerator of the fused score `[f] 1/(K+f) + [v] 1/(K+v)` written as one fraction.
pub open spec fn rrf_num(f: Option<nat>, v: Option<nat>) -> nat {
    match (f, v) {
        (Some(a), Some(b)) => ((RRF_K + a) + (RRF_K + b)) as nat,
        (Some(a), None) => 1,
        (None, Some(b)) => 1,
        (None, None) => 0,
    }
}

/// Denominator of the fused score written as one fraction.
pub open spec fn rrf_den(f: Option<nat>, v: Option<nat>) -> nat {
    match (f, v) {
        (Some(a), Some(b)) => ((RRF_K + a) * (RRF_K + b)) as nat,
        (Some(a), None) => (RRF_K + a) as nat,
        (None, Some(b)) => (RRF_K + b) as nat,
        (None, None) => 1,
    }
}

/// Whether the fused score of rank pair `a` is at least that of `b` (exact comparison).
pub open spec fn rrf_at_least(a: (Option<nat>, Option<nat>), b: (Option<nat>, Option<nat>)) -> bool {
    rrf_num(a.0, a.1) * rrf_den(b.0, b.1) >= rrf_num(b.0, b.1) * rrf_den(a.0, a.1)
}

pub open spec fn entry_ranks(e: RankedMemory) -> (Option<nat>, Option<nat>) {
    (opt_nat(e.fts_rank), opt_nat(e.vector_rank))
}

/// The ranks of the record with `id` in the two result lists.
pub open spec fn id_ranks(fts: Seq<Memory>, vec: Seq<Memory>, id: Seq<char>) -> (
    Option<nat>,
    Option<nat>,
) {
    (rank_of(ids_of(fts), id), rank_of(ids_of(vec), id))
}

/// A fused entry describes its record exactly: its ranks in both lists, and
/// the record itself as the full-text list holds it, else as the vector list does.
pub open spec fn fused_entry_ok(fts: Seq<Memory>, vec: Seq<Memory>, e: RankedMemory) -> bool {
    &&& entry_ranks(e) == id_ranks(fts, vec, e.memory.id@)
    &&& (e.fts_rank matches Some(p) ==> e.memory == fts[p - 1])
    &&& (e.fts_rank is None ==> (e.vector_rank matches Some(q) && e.memory == vec[q - 1]))
}

pub proof fn lemma_position_of(ids: Seq<Seq<char>>, id: Seq<char>)
    ensures
        position_of(ids, id) matches Some(p) ==> p < ids.len() && ids[p as int] == id && forall|
            q: int,
        | 0 <= q < p ==> ids[q] != id,
        position_of(ids, id) is None <==> !ids.contains(id),
    decreases ids.len(),
{
    if ids.len() > 0 {
        lemma_position_of(ids.drop_first(), id);
        if ids[0] != id {
            assert forall|q: int| 0 <= q < ids.len() - 1 implies ids.drop_first()[q] == ids[q
                + 1] by {}
            if ids.contains(id) {
                let w = choose|w: int| 0 <= w < ids.len() && ids[w] == id;
                assert(ids.drop_first()[w - 1] == id);
            }
            if ids.drop_first().contains(id) {
                let w = choose|w: int| 0 <= w < ids.len() - 1 && ids.drop_first()[w] == id;
                assert(ids[w + 1] == id);
            }
            match position_of(ids.drop_first(), id) {
                Some(p) => {
                    assert(ids[p + 1int] == ids.drop_first()[p as int]);
                    assert forall|q: int| 0 <= q < p + 1 implies ids[q] != id by {
                        if q > 0 {
                            assert(ids[q] == ids.drop_first()[q - 1]);
                        }
                    }
                },
                None => {},
            }
        } else {
            assert(ids.contains(id));
        }
    }
}

pub proof fn lemma_position_unique(ids: Seq<Seq<char>>, p: int)
    requires
        ids.no_duplicates(),
        0 <= p < ids.len(),
    ensures
        position_of(ids, ids[p]) == Some(p as nat),
{
    lemma_position_of(ids, ids[p]);
    assert(ids.contains(ids[p]));
}

pub proof fn lemma_position_push(s: Seq<Seq<char>>, x: Seq<char>, y: Seq<char>)
    requires
        y != x,
    ensures
        position_of(s.push(x), y) == position_of(s, y),
{
    lemma_position_of(s.push(x), y);
    lemma_position_of(s, y);
    if s.contains(y) {
        let w = choose|w: int| 0 <= w < s.len() && s[w] == y;
        assert(s.push(x)[w] == y);
    }
    if s.push(x).contains(y) {
        let w = choose|w: int| 0 <= w < s.len() + 1 && s.push(x)[w] == y;
        assert(s[w] == y);
    }
    match position_of(s.push(x), y) {
        Some(p) => {
            match position_of(s, y) {
                Some(q) => {
                    assert(s.push(x)[q as int] == y);
                    assert(s[p as int] == y);
                },
                None => {},
            }
        },
        None => {},
    }
}

pub proof fn lemma_rank_bound(ids: Seq<Seq<char>>, id: Seq<char>)
    ensures
        rank_of(ids, id) matches Some(r) ==> 1 <= r <= ids.len(),
{
    lemma_position_of(ids, id);
}

proof fn lemma_rrf_den_positive(f: Option<nat>, v: Option<nat>)
    ensures
        rrf_den(f, v) > 0,
{
    match (f, v) {
        (Some(a), Some(b)) => {
            assert((RRF_K + a) * (RRF_K + b) > 0) by (nonlinear_arith)
                requires
                    RRF_K + a > 0,
                    RRF_K + b > 0,
            ;
        },
        _ => {},
    }
}

/// The exact score order is transitive.
pub proof fn lemma_rrf_at_least_transitive(
    a: (Option<nat>, Option<nat>),
    b: (Option<nat>, Option<nat>),
    c: (Option<nat>, Option<nat>),
)
    requires
        rrf_at_least(a, b),
        rrf_at_least(b, c),
    ensures
        rrf_at_least(a, c),
{
    lemma_rrf_den_positive(a.0, a.1);
    lemma_rrf_den_positive(b.0, b.1);
    lemma_rrf_den_positive(c.0, c.1);
    let na = rrf_num(a.0, a.1) as int;
    let nb = rrf_num(b.0, b.1) as int;
    let nc = rrf_num(c.0, c.1) as int;
    let da = rrf_den(a.0, a.1) as int;
    let db = rrf_den(b.0, b.1) as int;
    let dc = rrf_den(c.0, c.1) as int;
    assert(na * dc >= nc * da) by (nonlinear_arith)
        requires
            na * db >= nb * da,
            nb * dc >= nc * db,
            da > 0,
            db > 0,
            dc > 0,
            na >= 0,
            nb >= 0,
            nc >= 0,
    {
        assert(na * db * dc >= nb * da * dc);
        assert(nb * dc * da >= nc * db * da);
        assert(na * dc * db >= nc * da * db);
    }
}

/// Fusion rewards agreement: a record that both searches return scores
/// strictly more than one that only the full-text search returns, at the
/// same or a worse rank, and likewise for the vector search.
pub proof fn law_rrf_agreement_wins(a: nat, b: nat, c: nat)
    requires
        a <= c,
    ensures
        rrf_at_least((Some(a), Some(b)), (Some(c), None)),
        !rrf_at_least((Some(c), None), (Some(a), Some(b))),
        rrf_at_least((Some(b), Some(a)), (None, Some(c))),
        !rrf_at_least((None, Some(c)), (Some(b), Some(a))),
{
    let x = RRF_K + a;
    let y = RRF_K + b;
    let z = RRF_K + c;
    assert((x + y) * z > x * y) by (nonlinear_arith)
        requires
            x <= z,
            x > 0,
            y > 0,
    {
        assert(x * z > 0);
        assert(y * z >= y * x);
    }
    assert((x + y) * z == (y + x) * z) by (nonlinear_arith);
    assert(x * y == y * x) by (nonlinear_arith);
}

/// A better rank never lowers the fused score: moving a record up one list,
/// its place in the other list unchanged, keeps its score at least as high.
pub proof fn law_rrf_rank_monotone(a: nat, b: nat, other: Option<nat>)
    requires
        a <= b,
    ensures
        rrf_at_least((Some(a), other), (Some(b), other)),
        rrf_at_least((other, Some(a)), (other, Some(b))),
{
    let x = RRF_K + a;
    let y = RRF_K + b;
    match other {
        None => {},
        Some(v) => {
            let w = RRF_K + v;
            assert((x + w) * (y * w) >= (y + w) * (x * w)) by (nonlinear_arith)
                requires
                    x <= y,
                    x > 0,
                    w > 0,
            {
                assert((x + w) * (y * w) == x * y * w + w * y * w);
                assert((y + w) * (x * w) == y * x * w + w * x * w);
                assert(w * y * w >= w * x * w);
            }
            assert((w + x) * (w * y) >= (w + y) * (w * x)) by (nonlinear_arith)
                requires
                    (x + w) * (y * w) >= (y + w) * (x * w),
            ;
        },
    }
}

/// Ranks within the supported list length.
pub open spec fn rank_fits(r: Option<usize>) -> bool {
    r matches Some(x) ==> 1 <= x <= MAX_FUSION_LIST_LEN
}

fn fused_fraction(f: Option<usize>, v: Option<usize>) -> (r: (u128, u128))
    requires
        rank_fits(f),
        rank_fits(v),
    ensures
        r.0 == rrf_num(opt_nat(f), opt_nat(v)),
        r.1 == rrf_den(opt_nat(f), opt_nat(v)),
        r.0 <= 0x3_0000_0000,
        r.1 <= 0x2_0000_0000_0000_0000,
{
    match (f, v) {
        (Some(a), Some(b)) => {
            let x = 60u128 + a as u128;
            let y = 60u128 + b as u128;
            assert(x * y <= 0x2_0000_0000_0000_0000) by (nonlinear_arith)
                requires
                    x <= 0x1_0000_0040,
                    y <= 0x1_0000_0040,
            ;
            (x + y, x * y)
        },
        (Some(a), None) => (1, 60u128 + a as u128),
        (None, Some(b)) => (1, 60u128 + b as u128),
        (None, None) => (0, 1),
    }
}

/// Whether entry `a` scores at least as high as entry `b`.
fn scores_at_least(a: &RankedMemory, b: &RankedMemory) -> (r: bool)
    requires
        rank_fits(a.fts_rank),
        rank_fits(a.vector_rank),
        rank_fits(b.fts_rank),
        rank_fits(b.vector_rank),
    ensures
        r == rrf_at_least(entry_ranks(*a), entry_ranks(*b)),
{
    let (na, da) = fused_fraction(a.fts_rank, a.vector_rank);
    let (nb, db) = fused_fraction(b.fts_rank, b.vector_rank);
    assert(na * db <= 0x6_0000_0000_0000_0000_0000_0000) by (nonlinear_arith)
        requires
            na <= 0x3_0000_0000,
            db <= 0x2_0000_0000_0000_0000,
    ;
    assert(nb * da <= 0x6_0000_0000_0000_0000_0000_0000) by (nonlinear_arith)
        requires
            nb <= 0x3_0000_0000,
            da <= 0x2_0000_0000_0000_0000,
    ;
    na * db >= nb * da
}

/// `r` is the reciprocal rank fusion of the two lists, cut to `limit`
/// entries: at most `limit` entries, each describing one record exactly, no
/// record twice, ordered by fused score (highest first), and every record of
/// either list that is left out scores no higher than any that is kept (so
/// none is left out unless `limit` entries are kept).
pub open spec fn is_fusion(fts: Seq<Memory>, vec: Seq<Memory>, limit: nat, r: Seq<RankedMemory>) -> bool {
    &&& r.len() <= limit
    &&& forall|k: int| 0 <= k < r.len() ==> fused_entry_ok(fts, vec, #[trigger] r[k])
    &&& forall|a: int, b: int| 0 <= a < b < r.len() ==> r[a].memory.id@ != r[b].memory.id@
    &&& forall|a: int, b: int|
        0 <= a < b < r.len() ==> rrf_at_least(entry_ranks(r[a]), entry_ranks(r[b]))
    &&& forall|id: Seq<char>|
        (ids_of(fts).contains(id) || ids_of(vec).contains(id)) && (forall|k: int|
            0 <= k < r.len() ==> r[k].memory.id@ != id) ==> r.len() == limit && forall|k: int|
            0 <= k < r.len() ==> rrf_at_least(entry_ranks(#[trigger] r[k]), id_ranks(fts, vec, id))
}

/// The ids of the fused entries, in order.
pub open spec fn fused_ids(r: Seq<RankedMemory>) -> Seq<Seq<char>> {
    r.map_values(|e: RankedMemory| e.memory.id@)
}

/// Every id that occurs in either result list.
pub open spec fn all_ids(fts: Seq<Memory>, vec: Seq<Memory>) -> Set<Seq<char>> {
    ids_of(fts).to_set().union(ids_of(vec).to_set())
}

proof fn lemma_fusion_covers(fts: Seq<Memory>, vec: Seq<Memory>, limit: nat, r: Seq<RankedMemory>)
    requires
        is_fusion(fts, vec, limit, r),
        all_ids(fts, vec).len() <= limit,
    ensures
        forall|k: int| 0 <= k < r.len() ==> all_ids(fts, vec).contains(#[trigger] r[k].memory.id@),
        forall|id: Seq<char>|
            all_ids(fts, vec).contains(id) ==> fused_ids(r).contains(id),
{
    let all = all_ids(fts, vec);
    vstd::seq_lib::seq_to_set_is_finite(ids_of(fts));
    vstd::seq_lib::seq_to_set_is_finite(ids_of(vec));
    vstd::set_lib::lemma_set_union_finite_iff(ids_of(fts).to_set(), ids_of(vec).to_set());
    assert forall|k: int| 0 <= k < r.len() implies all.contains(#[trigger] r[k].memory.id@) by {
        let id = r[k].memory.id@;
        assert(fused_entry_ok(fts, vec, r[k]));
        lemma_position_of(ids_of(fts), id);
        lemma_position_of(ids_of(vec), id);
        if r[k].fts_rank is Some {
            assert(ids_of(fts).contains(id));
            assert(ids_of(fts).to_set().contains(id));
        } else {
            assert(ids_of(vec).contains(id));
            assert(ids_of(vec).to_set().contains(id));
        }
    }
    let fids = fused_ids(r);
    assert forall|id: Seq<char>| all.contains(id) implies fids.contains(id) by {
        if !fids.contains(id) {
            assert forall|k: int| 0 <= k < r.len() implies r[k].memory.id@ != id by {
                assert(fids[k] == r[k].memory.id@);
            }
            assert(ids_of(fts).contains(id) || ids_of(vec).contains(id));
            assert(r.len() == limit);
            assert(fids.no_duplicates()) by {
                assert forall|i: int, j: int|
                    0 <= i < fids.len() && 0 <= j < fids.len() && i != j implies fids[i]
                    != fids[j] by {
                    if i < j {
                        assert(r[i].memory.id@ != r[j].memory.id@);
                    } else {
                        assert(r[j].memory.id@ != r[i].memory.id@);
                    }
                }
            }
            fids.unique_seq_to_set();
            assert(fids.to_set().subset_of(all.remove(id))) by {
                assert forall|x: Seq<char>| fids.to_set().contains(x) implies all.remove(
                    id,
                ).contains(x) by {
                    let k = choose|k: int| 0 <= k < fids.len() && fids[k] == x;
                    assert(all.contains(r[k].memory.id@));
                }
            }
            vstd::set_lib::lemma_len_subset(fids.to_set(), all.remove(id));
            assert(false);
        }
    }
}

/// Fusion does not depend on which list is which: when every record fits
/// in the result, fusing (full-text, vector) and fusing (vector, full-text)
/// return the same records, and each record gets the same score from both
/// (only the order among equal scores may differ).
pub proof fn law_rrf_symmetric(
    fts: Seq<Memory>,
    vec: Seq<Memory>,
    limit: nat,
    r1: Seq<RankedMemory>,
    r2: Seq<RankedMemory>,
)
    requires
        all_ids(fts, vec).len() <= limit,
        is_fusion(fts, vec, limit, r1),
        is_fusion(vec, fts, limit, r2),
    ensures
        fused_ids(r1).to_set() == fused_ids(r2).to_set(),
        forall|a: int, b: int|
            0 <= a < r1.len() && 0 <= b < r2.len() && r1[a].memory.id@ == r2[b].memory.id@
                ==> rrf_num(entry_ranks(r1[a]).0, entry_ranks(r1[a]).1) == rrf_num(
                entry_ranks(r2[b]).0,
                entry_ranks(r2[b]).1,
            ) && rrf_den(entry_ranks(r1[a]).0, entry_ranks(r1[a]).1) == rrf_den(
                entry_ranks(r2[b]).0,
                entry_ranks(r2[b]).1,
            ),
{
    assert(all_ids(vec, fts) =~= all_ids(fts, vec));
    lemma_fusion_covers(fts, vec, limit, r1);
    lemma_fusion_covers(vec, fts, limit, r2);
    let all = all_ids(fts, vec);
    assert forall|x: Seq<char>| fused_ids(r1).to_set().contains(x) <==> all.contains(x) by {
        if fused_ids(r1).contains(x) {
            let k = choose|k: int| 0 <= k < r1.len() && fused_ids(r1)[k] == x;
            assert(all.contains(r1[k].memory.id@));
        }
    }
    assert forall|x: Seq<char>| fused_ids(r2).to_set().contains(x) <==> all.contains(x) by {
        if fused_ids(r2).contains(x) {
            let k = choose|k: int| 0 <= k < r2.len() && fused_ids(r2)[k] == x;
            assert(all.contains(r2[k].memory.id@));
        }
    }
    assert(fused_ids(r1).to_set() =~= fused_ids(r2).to_set());
    assert forall|a: int, b: int|
        0 <= a < r1.len() && 0 <= b < r2.len() && r1[a].memory.id@ == r2[b].memory.id@ implies rrf_num(
        entry_ranks(r1[a]).0,
        entry_ranks(r1[a]).1,
    ) == rrf_num(entry_ranks(r2[b]).0, entry_ranks(r2[b]).1) && rrf_den(
        entry_ranks(r1[a]).0,
        entry_ranks(r1[a]).1,
    ) == rrf_den(entry_ranks(r2[b]).0, entry_ranks(r2[b]).1) by {
        assert(fused_entry_ok(fts, vec, r1[a]));
        assert(fused_entry_ok(vec, fts, r2[b]));
        let x = entry_ranks(r1[a]);
        assert(entry_ranks(r2[b]) == (x.1, x.0));
        match (x.0, x.1) {
            (Some(p), Some(q)) => {
                assert((RRF_K + p) * (RRF_K + q) == (RRF_K + q) * (RRF_K + p)) by (nonlinear_arith);
            },
            _ => {},
        }
    }
}

/// Merges a full-text and a vector result list by reciprocal rank fusion:
/// each distinct record gets the sum of `1 / (RRF_K + rank)` over the lists it
/// occurs in, records are ordered by that score, highest first, and at most
/// `limit` are kept.  Scores are compared exactly; the floating-point score of
/// an entry is a function of its two ranks.  Each list holds a record at most
/// once (as a search over records with unique ids returns them), so a score
/// has at most two terms: the exact comparison of sums over repeated
/// occurrences would need integers of unbounded size, and the fusion of such
/// lists is left to floating-point code outside this crate.
pub fn reciprocal_rank_fusion(fts: &Vec<Memory>, vec: &Vec<Memory>, limit: usize) -> (r: Vec<
    RankedMemory,
>)
    requires
        ids_of(fts@).no_duplicates(),
        ids_of(vec@).no_duplicates(),
        fts@.len() <= MAX_FUSION_LIST_LEN,
        vec@.len() <= MAX_FUSION_LIST_LEN,
    ensures
        is_fusion(fts@, vec@, limit as nat, r@),
{
    let ghost fids = ids_of(fts@);
    let ghost vids = ids_of(vec@);
    let nf = fts.len();
    let mut entries: Vec<RankedMemory> = Vec::new();
    let mut i: usize = 0;
    while i < nf
        invariant
            nf == fts@.len(),
            nf <= MAX_FUSION_LIST_LEN,
            i <= nf,
            entries@.len() == i,
            forall|k: int|
                0 <= k < i ==> (#[trigger] entries@[k]).memory == fts@[k] && entries@[k].fts_rank
                    == Some((k + 1) as usize) && entries@[k].vector_rank is None,
        decreases nf - i,
    {
        entries.push(
            RankedMemory { memory: fts[i].duplicate(), fts_rank: Some(i + 1), vector_rank: None },
        );
        i = i + 1;
    }
    proof {
        assert forall|a: int, b: int| 0 <= a < b < entries@.len() implies entries@[a].memory.id@
            != entries@[b].memory.id@ by {
            assert(fids[a] == fts@[a].id@);
            assert(fids[b] == fts@[b].id@);
        }
    }
    let nv = vec.len();
    let mut j: usize = 0;
    assert(vids.take(0) =~= Seq::<Seq<char>>::empty());
    while j < nv
        invariant
            nf == fts@.len(),
            nv == vec@.len(),
            fids == ids_of(fts@),
            vids == ids_of(vec@),
            fids.no_duplicates(),
            vids.no_duplicates(),
            nf <= MAX_FUSION_LIST_LEN,
            nv <= MAX_FUSION_LIST_LEN,
            j <= nv,
            entries@.len() >= nf,
            forall|k: int|
                0 <= k < nf ==> (#[trigger] entries@[k]).memory == fts@[k] && entries@[k].fts_rank
                    == Some((k + 1) as usize) && opt_nat(entries@[k].vector_rank) == rank_of(
                    vids.take(j as int),
                    fids[k],
                ),
            forall|k: int|
                nf <= k < entries@.len() ==> (#[trigger] entries@[k]).fts_rank is None
                    && !fids.contains(entries@[k].memory.id@) && (entries@[k].vector_rank matches Some(
                    q,
                ) && 1 <= q <= j && entries@[k].memory == vec@[q - 1]),
            forall|a: int, b: int|
                0 <= a < b < entries@.len() ==> entries@[a].memory.id@ != entries@[b].memory.id@,
            forall|q: int|
                #![trigger vids[q]]
                0 <= q < j ==> exists|k: int|
                    0 <= k < entries@.len() && (#[trigger] entries@[k]).memory.id@ == vids[q],
        decreases nv - j,
    {
        let ghost x = vids[j as int];
        assert(vids.take(j + 1) =~= vids.take(j as int).push(x));
        assert(vids.take(j + 1).no_duplicates());
        let mut k: usize = 0;
        let mut found: bool = false;
        assert(x == vec@[j as int].id@);
        while k < entries.len() && !found
            invariant
                entries@.len() >= nf,
                k <= entries@.len(),
                x == vids[j as int],
                x == vec@[j as int].id@,
                j < nv,
                nv == vec@.len(),
                forall|t: int| 0 <= t < k ==> (#[trigger] entries@[t]).memory.id@ != x,
                found ==> k < entries@.len() && entries@[k as int].memory.id@ == x,
            decreases entries@.len() - k + (if found { 0int } else { 1int }),
        {
            if entries[k].memory.id == vec[j].id {
                found = true;
            } else {
                k = k + 1;
            }
        }
        let ghost old_entries = entries@;
        if found {
            proof {
                if k >= nf {
                    let q = entries@[k as int].vector_rank->0;
                    assert(vids[q - 1] == x);
                    assert(vids[j as int] == x);
                }
                lemma_position_unique(vids.take(j + 1), j as int);
                assert forall|t: int| 0 <= t < nf && t != k implies fids[t] != x by {
                    assert(fids[t] == fts@[t].id@);
                    assert(fids[k as int] == fts@[k as int].id@);
                    assert(entries@[t].memory.id@ == fids[t]);
                }
            }
            let upd = RankedMemory {
                memory: entries[k].memory.duplicate(),
                fts_rank: entries[k].fts_rank,
                vector_rank: Some(j + 1),
            };
            entries.set(k, upd);
            proof {
                assert forall|t: int| 0 <= t < nf && t != k implies opt_nat(
                    (#[trigger] entries@[t]).vector_rank,
                ) == rank_of(vids.take(j + 1), fids[t]) by {
                    lemma_position_push(vids.take(j as int), x, fids[t]);
                }
                assert(fids[k as int] == x);
            }
        } else {
            proof {
                assert forall|t: int| 0 <= t < nf implies fids[t] != x by {
                    assert(fids[t] == fts@[t].id@);
                    assert(entries@[t].memory.id@ == fids[t]);
                }
                assert(!fids.contains(x));
                assert forall|t: int| 0 <= t < nf implies opt_nat(
                    (#[trigger] entries@[t]).vector_rank,
                ) == rank_of(vids.take(j + 1), fids[t]) by {
                    lemma_position_push(vids.take(j as int), x, fids[t]);
                }
            }
            entries.push(
                RankedMemory {
                    memory: vec[j].duplicate(),
                    fts_rank: None,
                    vector_rank: Some(j + 1),
                },
            );
        }
        proof {
            assert forall|q: int| #![trigger vids[q]] 0 <= q < j + 1 implies exists|k2: int|
                0 <= k2 < entries@.len() && (#[trigger] entries@[k2]).memory.id@ == vids[q] by {
                if q == j {
                    if found {
                        assert(entries@[k as int].memory.id@ == vids[q]);
                    } else {
                        assert(entries@[entries@.len() - 1].memory.id@ == vids[q]);
                    }
                } else {
                    let k2 = choose|k2: int|
                        0 <= k2 < old_entries.len() && (#[trigger] old_entries[k2]).memory.id@
                            == vids[q];
                    assert(entries@[k2].memory.id@ == old_entries[k2].memory.id@);
                }
            }
        }
        j = j + 1;
    }
    assert(vids.take(nv as int) =~= vids);
    // every entry now describes its record exactly
    proof {
        assert forall|k: int| 0 <= k < entries@.len() implies fused_entry_ok(
            fts@,
            vec@,
            #[trigger] entries@[k],
        ) by {
            if k < nf {
                lemma_position_unique(fids, k);
            } else {
                let q = entries@[k].vector_rank->0;
                lemma_position_unique(vids, q - 1);
                lemma_position_of(fids, entries@[k].memory.id@);
            }
        }
        assert forall|id: Seq<char>| fids.contains(id) || vids.contains(id) implies exists|k: int|
            0 <= k < entries@.len() && (#[trigger] entries@[k]).memory.id@ == id by {
            if fids.contains(id) {
                let w = choose|w: int| 0 <= w < fids.len() && fids[w] == id;
                assert(entries@[w].memory.id@ == id);
            } else {
                let w = choose|w: int| 0 <= w < vids.len() && vids[w] == id;
                assert(vids[w] == id);
            }
        }
        assert forall|k: int| 0 <= k < entries@.len() implies rank_fits(
            (#[trigger] entries@[k]).fts_rank,
        ) && rank_fits(entries@[k].vector_rank) by {
            lemma_rank_bound(fids, entries@[k].memory.id@);
            lemma_rank_bound(vids, entries@[k].memory.id@);
        }
    }
    // selection: repeatedly move the highest-scoring remaining entry to the output
    let mut rem = entries;
    let mut out: Vec<RankedMemory> = Vec::new();
    while out.len() < limit && rem.len() > 0
        invariant
            out@.len() <= limit,
            forall|t: int| 0 <= t < out@.len() ==> fused_entry_ok(fts@, vec@, #[trigger] out@[t]),
            forall|t: int| 0 <= t < rem@.len() ==> fused_entry_ok(fts@, vec@, #[trigger] rem@[t]),
            forall|t: int|
                0 <= t < rem@.len() ==> rank_fits((#[trigger] rem@[t]).fts_rank) && rank_fits(
                    rem@[t].vector_rank,
                ),
            forall|a: int, b: int|
                0 <= a < b < out@.len() ==> out@[a].memory.id@ != out@[b].memory.id@,
            forall|a: int, b: int|
                0 <= a < b < rem@.len() ==> rem@[a].memory.id@ != rem@[b].memory.id@,
            forall|a: int, b: int|
                0 <= a < out@.len() && 0 <= b < rem@.len() ==> out@[a].memory.id@
                    != rem@[b].memory.id@,
            forall|id: Seq<char>|
                fids.contains(id) || vids.contains(id) ==> (exists|k: int|
                    0 <= k < out@.len() && (#[trigger] out@[k]).memory.id@ == id) || (exists|
                    k: int,
                | 0 <= k < rem@.len() && (#[trigger] rem@[k]).memory.id@ == id),
            forall|a: int, b: int|
                0 <= a < b < out@.len() ==> rrf_at_least(entry_ranks(out@[a]), entry_ranks(out@[b])),
            forall|a: int, b: int|
                0 <= a < out@.len() && 0 <= b < rem@.len() ==> rrf_at_least(
                    entry_ranks(out@[a]),
                    entry_ranks(rem@[b]),
                ),
            fids == ids_of(fts@),
            vids == ids_of(vec@),
        decreases rem@.len(),
    {
        let mut best: usize = 0;
        let mut s: usize = 1;
        while s < rem.len()
            invariant
                0 < rem@.len(),
                best < s <= rem@.len(),
                forall|t: int|
                    0 <= t < rem@.len() ==> rank_fits((#[trigger] rem@[t]).fts_rank) && rank_fits(
                        rem@[t].vector_rank,
                    ),
                forall|t: int|
                    0 <= t < s ==> rrf_at_least(
                        entry_ranks(rem@[best as int]),
                        entry_ranks(#[trigger] rem@[t]),
                    ),
            decreases rem@.len() - s,
        {
            if !scores_at_least(&rem[best], &rem[s]) {
                proof {
                    assert forall|t: int| 0 <= t < s + 1 implies rrf_at_least(
                        entry_ranks(rem@[s as int]),
                        entry_ranks(#[trigger] rem@[t]),
                    ) by {
                        if t < s {
                            lemma_rrf_at_least_transitive(
                                entry_ranks(rem@[s as int]),
                                entry_ranks(rem@[best as int]),
                                entry_ranks(rem@[t]),
                            );
                        }
                    }
                }
                best = s;
            }
            s = s + 1;
        }
        let ghost old_rem = rem@;
        let ghost old_out = out@;
        let chosen = rem.remove(best);
        out.push(chosen);
        proof {
            let b = best as int;
            assert(rem@ == old_rem.remove(b));
            assert forall|t: int| 0 <= t < rem@.len() implies #[trigger] rem@[t] == (if t < b {
                old_rem[t]
            } else {
                old_rem[t + 1]
            }) by {}
            assert forall|id: Seq<char>| fids.contains(id) || vids.contains(id) implies (exists|
                k: int,
            | 0 <= k < out@.len() && (#[trigger] out@[k]).memory.id@ == id) || (exists|k: int|
                0 <= k < rem@.len() && (#[trigger] rem@[k]).memory.id@ == id) by {
                if exists|k: int| 0 <= k < old_out.len() && (#[trigger] old_out[k]).memory.id@ == id {
                    let k = choose|k: int|
                        0 <= k < old_out.len() && (#[trigger] old_out[k]).memory.id@ == id;
                    assert(out@[k].memory.id@ == id);
                } else {
                    let k = choose|k: int|
                        0 <= k < old_rem.len() && (#[trigger] old_rem[k]).memory.id@ == id;
                    if k == b {
                        assert(out@[old_out.len() as int].memory.id@ == id);
                    } else if k < b {
                        assert(rem@[k].memory.id@ == id);
                    } else {
                        assert(rem@[k - 1].memory.id@ == id);
                    }
                }
            }
        }
    }
    out
}

// ---------------------------------------------------------------------------
// Recall: validation, planning, and combining the result lists
// ---------------------------------------------------------------------------

/// A search over an actor's memory records by text, by embedding, or both.
#[derive(Debug, Clone, Copy)]
pub struct RecallParams<'a> {
    pub actor_id: &'a str,
    pub query: Option<&'a str>,
    pub embedding: Option<EmbeddingInfo>,
    pub namespace: Option<&'a str>,
    pub namespace_prefix: Option<&'a str>,
    pub strategy: Option<&'a str>,
    pub limit: u32,
}

/// A full-text search as the database runs it; `fts_query` is sanitized.
#[derive(Debug, Clone, Copy)]
pub struct SearchFtsParams<'a> {
    pub actor_id: &'a str,
    pub fts_query: &'a str,
    pub namespace: Option<&'a str>,
    pub namespace_prefix: Option<&'a str>,
    pub strategy: Option<&'a str>,
    pub limit: u32,
}

pub open spec fn opt_problem(o: Option<&str>, f: spec_fn(Seq<char>) -> Option<Seq<char>>) -> Option<
    Seq<char>,
> {
    match o {
        Some(x) => f(x@),
        None => None,
    }
}

pub open spec fn recall_params_problem(p: RecallParams) -> Option<Seq<char>> {
    first_problem(
        non_empty_problem(p.actor_id@, "actor_id"@),
        first_problem(
            max_len_problem(p.actor_id@, MAX_ACTOR_ID_LEN as nat, "actor_id"@),
            first_problem(
                if p.query is None && p.embedding is None {
                    Some("at least one of query or embedding must be provided"@)
                } else {
                    None
                },
                first_problem(
                    opt_problem(
                        p.query,
                        |q: Seq<char>|
                            first_problem(
                                non_empty_problem(q, "query"@),
                                max_len_problem(q, MAX_QUERY_LEN as nat, "query"@),
                            ),
                    ),
                    first_problem(
                        opt_embedding_problem(p.embedding),
                        first_problem(
                            if p.namespace is Some && p.namespace_prefix is Some {
                                Some("namespace and namespace_prefix are mutually exclusive"@)
                            } else {
                                None
                            },
                            first_problem(
                                opt_problem(
                                    p.namespace,
                                    |x: Seq<char>|
                                        first_problem(
                                            non_empty_problem(x, "namespace"@),
                                            max_len_problem(
                                                x,
                                                MAX_NAMESPACE_LEN as nat,
                                                "namespace"@,
                                            ),
                                        ),
                                ),
                                first_problem(
                                    opt_problem(
                                        p.namespace_prefix,
                                        |x: Seq<char>|
                                            first_problem(
                                                non_empty_problem(x, "namespace_prefix"@),
                                                max_len_problem(
                                                    x,
                                                    MAX_NAMESPACE_LEN as nat,
                                                    "namespace_prefix"@,
                                                ),
                                            ),
                                    ),
                                    opt_problem(
                                        p.strategy,
                                        |x: Seq<char>|
                                            first_problem(
                                                non_empty_problem(x, "strategy"@),
                                                max_len_problem(
                                                    x,
                                                    MAX_STRATEGY_LEN as nat,
                                                    "strategy"@,
                                                ),
                                            ),
                                    ),
                                ),
                            ),
                        ),
                    ),
                ),
            ),
        ),
    )
}

/// A search request without a namespace prefix is accepted whenever each of
/// its fields passes its own check: the actor id present and at most 256
/// bytes; a query, an embedding or both, the query present and at most 4096
/// bytes, the embedding of 384 finite dimensions; a namespace, if given,
/// present and at most 512 bytes; a strategy, if given, present and at most
/// 128 bytes.  Whatever combination of query, embedding and namespace it
/// carries, nothing else refuses it: the namespace is refused only beside a
/// namespace prefix.  Planning it succeeds too unless it is text-only and its
/// query has no searchable term.
pub proof fn law_recall_without_prefix_accepted(p: RecallParams)
    requires
        0 < p.actor_id@.len(),
        utf8_len(p.actor_id@) <= 256,
        p.query is Some || p.embedding is Some,
        p.query matches Some(q) ==> 0 < q@.len() && utf8_len(q@) <= 4096,
        p.embedding matches Some(e) ==> e.dims == 384 && e.all_finite,
        p.namespace matches Some(n) ==> 0 < n@.len() && utf8_len(n@) <= 512,
        p.namespace_prefix is None,
        p.strategy matches Some(st) ==> 0 < st@.len() && utf8_len(st@) <= 128,
    ensures
        recall_params_problem(p) is None,
        (p.embedding is Some || sanitized_fts_query(p.query.unwrap()@) is Some) ==> recall_problem(
            p,
        ) is None,
{
}

/// A search request naming both a namespace and a namespace prefix is
/// refused, whatever else it carries.
pub proof fn law_recall_namespace_and_prefix_refused(p: RecallParams)
    requires
        p.namespace is Some,
        p.namespace_prefix is Some,
    ensures
        recall_params_problem(p) is Some,
{
}

fn validate_present_limited(value: Option<&str>, max: usize, field: &str) -> (r: Result<
    (),
    MemoryError,
>)
    ensures
        reports(
            r,
            match value {
                Some(x) => first_problem(
                    non_empty_problem(x@, field@),
                    max_len_problem(x@, max as nat, field@),
                ),
                None => None,
            },
        ),
{
    if let Some(x) = value {
        validate_non_empty(x, field)?;
        validate_max_len(x, max, field)?;
    }
    Ok(())
}

/// Validates a search request; `Ok` exactly when no check fails, else the
/// first failing check's `InvalidInput`.
pub fn validate_recall_params(p: &RecallParams) -> (r: Result<(), MemoryError>)
    ensures
        reports(r, recall_params_problem(*p)),
{
    validate_non_empty(p.actor_id, "actor_id")?;
    validate_max_len(p.actor_id, MAX_ACTOR_ID_LEN, "actor_id")?;
    if p.query.is_none() && p.embedding.is_none() {
        return invalid(
            String::from_str("at least one of query or embedding must be provided"),
        );
    }
    validate_present_limited(p.query, MAX_QUERY_LEN, "query")?;
    if let Some(e) = p.embedding {
        validate_embedding(&e)?;
    }
    if p.namespace.is_some() && p.namespace_prefix.is_some() {
        return invalid(
            String::from_str("namespace and namespace_prefix are mutually exclusive"),
        );
    }
    validate_present_limited(p.namespace, MAX_NAMESPACE_LEN, "namespace")?;
    validate_present_limited(p.namespace_prefix, MAX_NAMESPACE_LEN, "namespace_prefix")?;
    validate_present_limited(p.strategy, MAX_STRATEGY_LEN, "strategy")?;
    Ok(())
}

/// Which result lists a search reads.
#[derive(Debug, Clone, Copy, PartialEq, Eq)]
pub enum RecallMode {
    /// Text query only: the full-text list, with its own relevance scores.
    FullText,
    /// Embedding only: the vector list, scored by distance.
    Vector,
    /// Both: the two lists fused by reciprocal rank fusion.
    Hybrid,
}

/// The queries a search runs: its mode, the sanitized full-text query (if
/// any), the number of results to return, and how many each list fetches.
#[derive(Debug)]
pub struct RecallPlan {
    pub mode: RecallMode,
    pub fts_query: Option<String>,
    pub limit: u32,
    pub fetch_limit: u32,
}

pub open spec fn opt_string_view(o: Option<String>) -> Option<Seq<char>> {
    match o {
        Some(s) => Some(s@),
        None => None,
    }
}

pub open spec fn recall_problem(p: RecallParams) -> Option<Seq<char>> {
    first_problem(
        recall_params_problem(p),
        if p.embedding is None && (p.query matches Some(q) && sanitized_fts_query(q@) is None) {
            Some("query contains no searchable terms"@)
        } else {
            None
        },
    )
}

/// The plan for a valid request: the page size clamped into
/// `1..=MAX_PAGE_LIMIT`; a text-only search reads the full-text list, an
/// embedding-only search the vector list, and a search with both reads both,
/// each fetching twice the page size (at most `MAX_PAGE_LIMIT`).
pub open spec fn plans(p: RecallParams, plan: RecallPlan) -> bool {
    let limit = clamped(p.limit, 1, MAX_PAGE_LIMIT);
    &&& plan.limit == limit
    &&& plan.mode == (if p.embedding is None {
        RecallMode::FullText
    } else if p.query is None {
        RecallMode::Vector
    } else {
        RecallMode::Hybrid
    })
    &&& opt_string_view(plan.fts_query) == (match p.query {
        Some(q) => sanitized_fts_query(q@),
        None => None,
    })
    &&& plan.fetch_limit == (if plan.mode == RecallMode::Hybrid {
        min_nat(2 * limit as nat, MAX_PAGE_LIMIT as nat)
    } else {
        limit as nat
    })
}

/// Validates a search request and plans its queries.  A text-only query with
/// no searchable term is rejected; in a hybrid search it only leaves the
/// full-text list out.
pub fn plan_recall(p: &RecallParams) -> (r: Result<RecallPlan, MemoryError>)
    ensures
        outcome(r, recall_problem(*p)),
        r matches Ok(plan) ==> plans(*p, plan),
{
    validate_recall_params(p)?;
    let limit = clamp_u32(p.limit, 1, MAX_PAGE_LIMIT);
    let fts_query = match p.query {
        Some(q) => sanitize_fts_query(q),
        None => None,
    };
    if p.embedding.is_none() {
        if fts_query.is_none() {
            return Err(MemoryError::InvalidInput(String::from_str("query contains no searchable terms")));
        }
        Ok(RecallPlan { mode: RecallMode::FullText, fts_query, limit, fetch_limit: limit })
    } else if p.query.is_none() {
        Ok(RecallPlan { mode: RecallMode::Vector, fts_query, limit, fetch_limit: limit })
    } else {
        let doubled = limit * 2;
        let fetch_limit = if doubled < MAX_PAGE_LIMIT {
            doubled
        } else {
            MAX_PAGE_LIMIT
        };
        Ok(RecallPlan { mode: RecallMode::Hybrid, fts_query, limit, fetch_limit })
    }
}

/// The full-text search a plan runs, if it runs one.
pub fn fts_search_params<'a>(p: &RecallParams<'a>, plan: &'a RecallPlan) -> (r: Option<
    SearchFtsParams<'a>,
>)
    ensures
        r is Some <==> plan.fts_query is Some,
        r matches Some(f) ==> f.actor_id == p.actor_id && Some(f.fts_query@) == opt_string_view(
            plan.fts_query,
        ) && f.namespace == p.namespace && f.namespace_prefix == p.namespace_prefix
            && f.strategy == p.strategy && f.limit == plan.fetch_limit,
{
    match &plan.fts_query {
        Some(q) => Some(
            SearchFtsParams {
                actor_id: p.actor_id,
                fts_query: q.as_str(),
                namespace: p.namespace,
                namespace_prefix: p.namespace_prefix,
                strategy: p.strategy,
                limit: plan.fetch_limit,
            },
        ),
        None => None,
    }
}

/// What a vector search is filtered and limited by; the embedding itself
/// (floating point) is handed to the database beside these.
#[derive(Debug, Clone, Copy)]
pub struct VectorSearchFilters<'a> {
    pub actor_id: &'a str,
    pub namespace: Option<&'a str>,
    pub namespace_prefix: Option<&'a str>,
    pub strategy: Option<&'a str>,
    pub limit: u32,
}

/// The vector search a plan runs, if it runs one: scoped to the request's
/// actor and filters, fetching the plan's fetch limit.
pub fn vector_search_params<'a>(p: &RecallParams<'a>, plan: &RecallPlan) -> (r: Option<
    VectorSearchFilters<'a>,
>)
    ensures
        r is Some <==> plan.mode != RecallMode::FullText,
        r matches Some(v) ==> v.actor_id == p.actor_id && v.namespace == p.namespace
            && v.namespace_prefix == p.namespace_prefix && v.strategy == p.strategy && v.limit
            == plan.fetch_limit,
{
    match plan.mode {
        RecallMode::FullText => None,
        _ => Some(
            VectorSearchFilters {
                actor_id: p.actor_id,
                namespace: p.namespace,
                namespace_prefix: p.namespace_prefix,
                strategy: p.strategy,
                limit: plan.fetch_limit,
            },
        ),
    }
}

/// How the score of a search result is computed from its ranks.
#[derive(Debug, Clone, Copy, PartialEq, Eq)]
pub enum ScoreKind {
    /// The full-text engine's own relevance score of the record at `fts_rank`.
    FullText,
    /// `1 / (1 + distance)` of the record at `vector_rank` of the vector list.
    Vector,
    /// The reciprocal-rank-fusion score of the two ranks.
    Fused,
}

/// The record at 1-based rank `i + 1` of a single result list.
pub open spec fn listed(ms: Seq<Memory>, i: int, fulltext: bool) -> RankedMemory {
    RankedMemory {
        memory: ms[i],
        fts_rank: if fulltext {
            Some((i + 1) as usize)
        } else {
            None
        },
        vector_rank: if fulltext {
            None
        } else {
            Some((i + 1) as usize)
        },
    }
}

fn list_ranked(ms: &Vec<Memory>, n: usize, fulltext: bool) -> (r: Vec<RankedMemory>)
    requires
        n <= ms@.len(),
    ensures
        r@.len() == n,
        forall|i: int| 0 <= i < n ==> #[trigger] r@[i] == listed(ms@, i, fulltext),
{
    let mut r: Vec<RankedMemory> = Vec::new();
    let mut i: usize = 0;
    while i < n
        invariant
            n <= ms@.len(),
            i <= n,
            r@.len() == i,
            forall|k: int| 0 <= k < i ==> #[trigger] r@[k] == listed(ms@, k, fulltext),
        decreases n - i,
    {
        let m = ms[i].duplicate();
        if fulltext {
            r.push(RankedMemory { memory: m, fts_rank: Some(i + 1), vector_rank: None });
        } else {
            r.push(RankedMemory { memory: m, fts_rank: None, vector_rank: Some(i + 1) });
        }
        i = i + 1;
    }
    r
}

/// Combines what a plan's queries returned into the search result: a
/// text-only search returns the full-text list as it came; an embedding-only
/// search the vector list; a hybrid search fuses the two lists (cut to the
/// page size), or, when the full-text list is empty, returns the first
/// page of the vector list.
pub fn finish_recall(plan: &RecallPlan, fts: &Vec<Memory>, vec: &Vec<Memory>) -> (r: (
    ScoreKind,
    Vec<RankedMemory>,
))
    requires
        plan.mode == RecallMode::Hybrid && fts@.len() > 0 ==> ids_of(fts@).no_duplicates() && ids_of(
            vec@,
        ).no_duplicates() && fts@.len() <= MAX_FUSION_LIST_LEN && vec@.len()
            <= MAX_FUSION_LIST_LEN,
    ensures
        plan.mode == RecallMode::FullText ==> r.0 == ScoreKind::FullText && r.1@.len()
            == fts@.len() && forall|i: int|
            0 <= i < fts@.len() ==> #[trigger] r.1@[i] == listed(fts@, i, true),
        plan.mode == RecallMode::Vector ==> r.0 == ScoreKind::Vector && r.1@.len() == vec@.len()
            && forall|i: int| 0 <= i < vec@.len() ==> #[trigger] r.1@[i] == listed(vec@, i, false),
        plan.mode == RecallMode::Hybrid && fts@.len() == 0 ==> r.0 == ScoreKind::Vector
            && r.1@.len() == min_nat(plan.limit as nat, vec@.len()) && forall|i: int|
            0 <= i < r.1@.len() ==> #[trigger] r.1@[i] == listed(vec@, i, false),
        plan.mode == RecallMode::Hybrid && fts@.len() > 0 ==> r.0 == ScoreKind::Fused
            && is_fusion(fts@, vec@, plan.limit as nat, r.1@),
{
    match plan.mode {
        RecallMode::FullText => (ScoreKind::FullText, list_ranked(fts, fts.len(), true)),
        RecallMode::Vector => (ScoreKind::Vector, list_ranked(vec, vec.len(), false)),
        RecallMode::Hybrid => {
            if fts.len() == 0 {
                let n = if (plan.limit as usize) < vec.len() {
                    plan.limit as usize
                } else {
                    vec.len()
                };
                (ScoreKind::Vector, list_ranked(vec, n, false))
            } else {
                (ScoreKind::Fused, reciprocal_rank_fusion(fts, vec, plan.limit as usize))
            }
        },
    }
}

} // verus!
