//! Glossary terms: the filter of a page query and the list of related
//! terms as it is stored.

use vstd::prelude::*;
use crate::text::{lemma_prefix_len, prefix_len, push_text, texts};

verus! {

/// What counts the terms of a filter; the filter's conditions follow it.
pub const COUNT_TERMS_SQL: &'static str = "SELECT COUNT(*) as count FROM t_term";

/// What selects the terms of a filter; the filter's conditions follow it.
pub const SELECT_TERMS_SQL: &'static str =
    "SELECT id, term, definition, category, related_terms, popularity, created, updated FROM t_term";

/// What orders the terms of a page and cuts the page out.
pub const TERMS_PAGE_SQL: &'static str = " ORDER BY popularity DESC, id DESC LIMIT ? OFFSET ?";

/// The condition on the category.
pub const CATEGORY_SQL: &'static str = " WHERE category = ?";

/// The condition on the search text.
pub const SEARCH_SQL: &'static str = "(term LIKE ? OR definition LIKE ?)";

/// The conditions of a page query and the values that they are bound to,
/// in the order of their placeholders.
#[derive(Debug, PartialEq, Eq)]
pub struct TermFilter {
    pub where_clause: String,
    pub params: Vec<String>,
}

/// Whether a filter value is there: given and not empty.
pub open spec fn applies(value: Option<Seq<char>>) -> bool {
    value matches Some(v) && v.len() > 0
}

/// The conditions for a category and a search text: none where neither
/// applies, else those that apply, the category first.
pub open spec fn where_text(category: Option<Seq<char>>, search: Option<Seq<char>>) -> Seq<char> {
    let first = if applies(category) {
        CATEGORY_SQL@
    } else {
        Seq::empty()
    };
    if applies(search) {
        first + (if applies(category) {
            " AND "@
        } else {
            " WHERE "@
        }) + SEARCH_SQL@
    } else {
        first
    }
}

/// What a search text is matched as: anywhere inside.
pub open spec fn like_pattern(search: Seq<char>) -> Seq<char> {
    "%"@ + search + "%"@
}

/// The values for the conditions of `where_text`: the category where it
/// applies, then the pattern of the search text twice where that applies.
pub open spec fn where_params(category: Option<Seq<char>>, search: Option<Seq<char>>) -> Seq<
    Seq<char>,
> {
    let first = if applies(category) {
        seq![category->0]
    } else {
        Seq::empty()
    };
    if applies(search) {
        first + seq![like_pattern(search->0), like_pattern(search->0)]
    } else {
        first
    }
}

/// The optional text as characters.
pub open spec fn chars_of(value: Option<&str>) -> Option<Seq<char>> {
    match value {
        Some(v) => Some(v@),
        None => None,
    }
}

/// Builds the filter of a page query from its category and its search
/// text; a value that is missing or empty does not filter.
pub fn term_filter(category: Option<&str>, search: Option<&str>) -> (filter: TermFilter)
    ensures
        filter.where_clause@ == where_text(chars_of(category), chars_of(search)),
        texts(filter.params@) == where_params(chars_of(category), chars_of(search)),
{
    let mut where_clause = String::new();
    let mut params: Vec<String> = Vec::new();
    let mut filtered = false;
    match category {
        Some(cat) => {
            if cat.unicode_len() > 0 {
                push_text(&mut where_clause, CATEGORY_SQL);
                params.push(cat.to_owned());
                filtered = true;
            }
        },
        None => {},
    }
    assert(where_clause@ =~= if applies(chars_of(category)) {
        CATEGORY_SQL@
    } else {
        Seq::empty()
    });
    assert(texts(params@) =~= if applies(chars_of(category)) {
        seq![chars_of(category)->0]
    } else {
        Seq::empty()
    });
    match search {
        Some(text) => {
            if text.unicode_len() > 0 {
                if filtered {
                    push_text(&mut where_clause, " AND ");
                } else {
                    push_text(&mut where_clause, " WHERE ");
                }
                push_text(&mut where_clause, SEARCH_SQL);
                let mut pattern = String::new();
                push_text(&mut pattern, "%");
                push_text(&mut pattern, text);
                push_text(&mut pattern, "%");
                assert(pattern@ =~= like_pattern(text@));
                let ghost before = params@;
                params.push(pattern.clone());
                params.push(pattern);
                assert(texts(params@) =~= texts(before) + seq![
                    like_pattern(text@),
                    like_pattern(text@),
                ]);
            }
        },
        None => {},
    }
    assert(where_clause@ =~= where_text(chars_of(category), chars_of(search)));
    TermFilter { where_clause, params }
}

/// The statement that counts the terms of a filter.
pub fn count_sql(filter: &TermFilter) -> (sql: String)
    ensures
        sql@ == COUNT_TERMS_SQL@ + filter.where_clause@,
{
    let mut sql = String::new();
    push_text(&mut sql, COUNT_TERMS_SQL);
    push_text(&mut sql, filter.where_clause.as_str());
    assert(sql@ =~= COUNT_TERMS_SQL@ + filter.where_clause@);
    sql
}

/// The statement that selects one page of the terms of a filter, the most
/// popular first; its last two placeholders take the size of the page and
/// the number of terms before it.
pub fn page_sql(filter: &TermFilter) -> (sql: String)
    ensures
        sql@ == SELECT_TERMS_SQL@ + filter.where_clause@ + TERMS_PAGE_SQL@,
{
    let mut sql = String::new();
    push_text(&mut sql, SELECT_TERMS_SQL);
    push_text(&mut sql, filter.where_clause.as_str());
    push_text(&mut sql, TERMS_PAGE_SQL);
    assert(sql@ =~= SELECT_TERMS_SQL@ + filter.where_clause@ + TERMS_PAGE_SQL@);
    sql
}

/// Whether a character is white space: a character with the Unicode
/// property `White_Space`.
pub open spec fn is_space(c: char) -> bool {
    let n = c as u32;
    ||| 0x09 <= n <= 0x0D
    ||| n == 0x20
    ||| n == 0x85
    ||| n == 0xA0
    ||| n == 0x1680
    ||| 0x2000 <= n <= 0x200A
    ||| n == 0x2028
    ||| n == 0x2029
    ||| n == 0x202F
    ||| n == 0x205F
    ||| n == 0x3000
}

/// Decides whether a character is white space.
pub fn is_white_space(c: char) -> (space: bool)
    ensures
        space == is_space(c),
{
    let n = c as u32;
    (0x09 <= n && n <= 0x0D) || n == 0x20 || n == 0x85 || n == 0xA0 || n == 0x1680 || (0x2000 <= n
        && n <= 0x200A) || n == 0x2028 || n == 0x2029 || n == 0x202F || n == 0x205F || n == 0x3000
}

/// The number of white-space characters that `s` begins with.
pub open spec fn leading_spaces(s: Seq<char>) -> nat
    decreases s.len(),
{
    if s.len() > 0 && is_space(s[0]) {
        1 + leading_spaces(s.drop_first())
    } else {
        0
    }
}

/// The number of white-space characters that `s` ends with.
pub open spec fn trailing_spaces(s: Seq<char>) -> nat
    decreases s.len(),
{
    if s.len() > 0 && is_space(s.last()) {
        1 + trailing_spaces(s.drop_last())
    } else {
        0
    }
}

/// `s` without the white space at its beginning and at its end.
pub open spec fn trimmed(s: Seq<char>) -> Seq<char> {
    let from = leading_spaces(s);
    let rest = s.subrange(from as int, s.len() as int);
    rest.subrange(0, rest.len() - trailing_spaces(rest))
}

/// The pieces of `s` between its commas: one more than it has commas, so
/// that the empty string has one empty piece.
pub open spec fn pieces(s: Seq<char>) -> Seq<Seq<char>>
    decreases s.len(),
{
    let head = prefix_len(s, ',');
    if head >= s.len() {
        seq![s]
    } else {
        seq![s.subrange(0, head as int)] + pieces(s.subrange(head as int + 1, s.len() as int))
    }
}

/// The related terms that a stored list names: none for the empty list,
/// else its pieces between the commas, each without the white space
/// around it.
pub open spec fn related_terms(stored: Seq<char>) -> Seq<Seq<char>> {
    if stored.len() == 0 {
        Seq::empty()
    } else {
        trim_each(pieces(stored))
    }
}

/// Each piece of a list without the white space around it.
pub open spec fn trim_each(list: Seq<Seq<char>>) -> Seq<Seq<char>> {
    list.map_values(|piece: Seq<char>| trimmed(piece))
}

proof fn lemma_leading(s: Seq<char>, n: int)
    requires
        0 <= n <= s.len(),
        forall|j: int| 0 <= j < n ==> is_space(s[j]),
        n == s.len() || !is_space(s[n]),
    ensures
        leading_spaces(s) == n,
    decreases s.len(),
{
    if n > 0 {
        lemma_leading(s.drop_first(), n - 1);
    }
}

proof fn lemma_trailing(s: Seq<char>, n: int)
    requires
        0 <= n <= s.len(),
        forall|j: int| s.len() - n <= j < s.len() ==> is_space(s[j]),
        n == s.len() || !is_space(s[s.len() - n - 1]),
    ensures
        trailing_spaces(s) == n,
    decreases s.len(),
{
    if n > 0 {
        lemma_trailing(s.drop_last(), n - 1);
    }
}

/// Copies the characters of `chars` from `from` up to `to`, without the
/// white space at either end.
fn trimmed_piece(chars: &Vec<char>, from: usize, to: usize) -> (out: String)
    requires
        from <= to <= chars.len(),
    ensures
        out@ == trimmed(chars@.subrange(from as int, to as int)),
{
    let ghost piece = chars@.subrange(from as int, to as int);
    let mut start = from;
    while start < to && is_white_space(chars[start])
        invariant
            from <= start <= to <= chars.len(),
            forall|j: int| from <= j < start ==> is_space(chars[j]),
        decreases to - start,
    {
        start += 1;
    }
    proof {
        lemma_leading(piece, start - from);
    }
    let ghost rest = piece.subrange(start - from, piece.len() as int);
    let mut end = to;
    while end > start && is_white_space(chars[end - 1])
        invariant
            start <= end <= to <= chars.len(),
            forall|j: int| end <= j < to ==> is_space(chars[j]),
        decreases end - start,
    {
        end -= 1;
    }
    proof {
        assert(rest =~= chars@.subrange(start as int, to as int));
        lemma_trailing(rest, to - end);
    }
    let mut out = String::new();
    let mut i = start;
    while i < end
        invariant
            start <= i <= end <= chars.len(),
            out@ == chars@.subrange(start as int, i as int),
        decreases end - i,
    {
        out.push(chars[i]);
        i += 1;
        assert(out@ =~= chars@.subrange(start as int, i as int));
    }
    assert(out@ =~= trimmed(piece));
    out
}

/// Reads the related terms out of a stored list: see `related_terms`.
pub fn split_related_terms(stored: &str) -> (terms: Vec<String>)
    ensures
        texts(terms@) == related_terms(stored@),
{
    let mut terms: Vec<String> = Vec::new();
    let mut chars: Vec<char> = Vec::new();
    for c in it: stored.chars()
        invariant
            it.seq() == stored@,
            chars@ == stored@.subrange(0, it.index() as int),
    {
        chars.push(c);
        assert(chars@ =~= stored@.subrange(0, it.index() + 1));
    }
    assert(chars@ =~= stored@);
    let n = chars.len();
    if n == 0 {
        assert(texts(terms@) =~= related_terms(stored@));
        return terms;
    }
    let mut from: usize = 0;
    let mut i: usize = 0;
    assert(chars@.subrange(0, n as int) =~= chars@);
    assert(texts(terms@) + trim_each(pieces(chars@)) =~= trim_each(pieces(chars@)));
    while i < n
        invariant
            n == chars.len(),
            from <= i <= n,
            forall|j: int| from <= j < i ==> chars[j] != ',',
            trim_each(pieces(chars@)) == texts(terms@) + trim_each(
                pieces(chars@.subrange(from as int, n as int)),
            ),
        decreases n - i,
    {
        if chars[i] == ',' {
            let ghost tail = chars@.subrange(from as int, n as int);
            let ghost next = chars@.subrange(i + 1, n as int);
            let ghost piece = chars@.subrange(from as int, i as int);
            let ghost before = terms@;
            let term = trimmed_piece(&chars, from, i);
            proof {
                lemma_prefix_len(tail, ',', i - from);
                assert(tail.subrange(0, i - from) =~= piece);
                assert(tail.subrange(i - from + 1, tail.len() as int) =~= next);
                assert(pieces(tail) == seq![piece] + pieces(next));
                assert(trim_each(pieces(tail)) =~= seq![term@] + trim_each(pieces(next)));
            }
            terms.push(term);
            from = i + 1;
            proof {
                assert(texts(terms@) =~= texts(before).push(term@));
                assert(texts(terms@) + trim_each(pieces(next)) =~= texts(before) + trim_each(
                    pieces(tail),
                ));
            }
        }
        i += 1;
    }
    let ghost tail = chars@.subrange(from as int, n as int);
    let ghost before = terms@;
    let term = trimmed_piece(&chars, from, n);
    proof {
        lemma_prefix_len(tail, ',', n - from);
        assert(pieces(tail) == seq![tail]);
        assert(trim_each(pieces(tail)) =~= seq![term@]);
    }
    terms.push(term);
    proof {
        assert(texts(terms@) =~= texts(before).push(term@));
        assert(texts(terms@) =~= trim_each(pieces(chars@)));
    }
    terms
}

} // verus!
