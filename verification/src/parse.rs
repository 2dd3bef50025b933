//! Splitting a line of console input into comma-separated fields.
//!
//! A field may be wrapped in double quotes, in which case the commas inside
//! the quotes belong to the field; the comma that follows a closing quote
//! separates fields and is consumed. Every field is trimmed of surrounding
//! whitespace. The splitting rules are stated by `spec_parse`, a fold of
//! `parse_step` over the characters of the line.

use vstd::prelude::*;

verus! {

/// The characters that count as whitespace when a field is trimmed:
/// the Unicode white-space characters.
pub open spec fn is_space(c: char) -> bool {
    ||| c == '\u{0009}'
    ||| c == '\u{000A}'
    ||| c == '\u{000B}'
    ||| c == '\u{000C}'
    ||| c == '\u{000D}'
    ||| c == ' '
    ||| c == '\u{0085}'
    ||| c == '\u{00A0}'
    ||| c == '\u{1680}'
    ||| c == '\u{2000}'
    ||| c == '\u{2001}'
    ||| c == '\u{2002}'
    ||| c == '\u{2003}'
    ||| c == '\u{2004}'
    ||| c == '\u{2005}'
    ||| c == '\u{2006}'
    ||| c == '\u{2007}'
    ||| c == '\u{2008}'
    ||| c == '\u{2009}'
    ||| c == '\u{200A}'
    ||| c == '\u{2028}'
    ||| c == '\u{2029}'
    ||| c == '\u{202F}'
    ||| c == '\u{205F}'
    ||| c == '\u{3000}'
}

/// Decides `is_space` for one character.
pub fn is_space_char(c: char) -> (r: bool)
    ensures
        r == is_space(c),
{
    c == '\u{0009}' || c == '\u{000A}' || c == '\u{000B}' || c == '\u{000C}' || c == '\u{000D}'
        || c == ' ' || c == '\u{0085}' || c == '\u{00A0}' || c == '\u{1680}' || c == '\u{2000}'
        || c == '\u{2001}' || c == '\u{2002}' || c == '\u{2003}' || c == '\u{2004}'
        || c == '\u{2005}' || c == '\u{2006}' || c == '\u{2007}' || c == '\u{2008}'
        || c == '\u{2009}' || c == '\u{200A}' || c == '\u{2028}' || c == '\u{2029}'
        || c == '\u{202F}' || c == '\u{205F}' || c == '\u{3000}'
}

/// The sequence with its leading whitespace removed.
pub open spec fn trim_front(s: Seq<char>) -> Seq<char>
    decreases s.len(),
{
    if s.len() > 0 && is_space(s.first()) {
        trim_front(s.drop_first())
    } else {
        s
    }
}

/// The sequence with its trailing whitespace removed.
pub open spec fn trim_back(s: Seq<char>) -> Seq<char>
    decreases s.len(),
{
    if s.len() > 0 && is_space(s.last()) {
        trim_back(s.drop_last())
    } else {
        s
    }
}

/// The sequence with whitespace removed from both ends.
pub open spec fn spec_trim(s: Seq<char>) -> Seq<char> {
    trim_back(trim_front(s))
}

proof fn lemma_trim_front_no_lead(s: Seq<char>)
    ensures
        trim_front(s).len() > 0 ==> !is_space(trim_front(s).first()),
    decreases s.len(),
{
    if s.len() > 0 && is_space(s.first()) {
        lemma_trim_front_no_lead(s.drop_first());
    }
}

proof fn lemma_trim_back_no_trail(s: Seq<char>)
    ensures
        trim_back(s).len() > 0 ==> !is_space(trim_back(s).last()),
    decreases s.len(),
{
    if s.len() > 0 && is_space(s.last()) {
        lemma_trim_back_no_trail(s.drop_last());
    }
}

proof fn lemma_trim_back_keeps_first(s: Seq<char>)
    ensures
        trim_back(s).len() > 0 ==> (s.len() > 0 && trim_back(s).first() == s.first()),
    decreases s.len(),
{
    if s.len() > 0 && is_space(s.last()) {
        lemma_trim_back_keeps_first(s.drop_last());
    }
}

/// A trimmed text carries no whitespace at either end.
pub proof fn lemma_trim_no_surrounding_space(s: Seq<char>)
    ensures
        spec_trim(s).len() > 0 ==> !is_space(spec_trim(s).first()),
        spec_trim(s).len() > 0 ==> !is_space(spec_trim(s).last()),
{
    lemma_trim_front_no_lead(s);
    lemma_trim_back_no_trail(trim_front(s));
    lemma_trim_back_keeps_first(trim_front(s));
}

/// Trimming is idempotent: a trimmed text trims to itself.
pub proof fn lemma_trim_idempotent(s: Seq<char>)
    ensures
        spec_trim(spec_trim(s)) == spec_trim(s),
{
    lemma_trim_no_surrounding_space(s);
}

/// Relies on String::push: appends the given character to the end of the string.
pub assume_specification[ String::push ](s: &mut String, ch: char)
    ensures
        final(s)@ == old(s)@.push(ch),
;

/// Builds the string of the characters of `v` between the first and last
/// non-whitespace characters: the trimmed field text.
pub fn trim_to_string(v: &Vec<char>) -> (r: String)
    ensures
        r@ == spec_trim(v@),
{
    let mut lo: usize = 0;
    proof {
        assert(v@.skip(0) =~= v@);
    }
    while lo < v.len() && is_space_char(v[lo])
        invariant
            0 <= lo <= v.len(),
            trim_front(v@) == trim_front(v@.skip(lo as int)),
        decreases v.len() - lo,
    {
        proof {
            assert(v@.skip(lo as int).len() > 0);
            assert(v@.skip(lo as int).first() == v@[lo as int]);
            assert(v@.skip(lo as int).drop_first() =~= v@.skip(lo as int + 1));
        }
        lo = lo + 1;
    }
    proof {
        assert(trim_front(v@.skip(lo as int)) == v@.skip(lo as int));
    }
    let mut hi: usize = v.len();
    proof {
        assert(v@.subrange(lo as int, v@.len() as int) =~= v@.skip(lo as int));
    }
    while hi > lo && is_space_char(v[hi - 1])
        invariant
            0 <= lo <= hi <= v.len(),
            trim_front(v@) == v@.skip(lo as int),
            trim_back(v@.skip(lo as int)) == trim_back(v@.subrange(lo as int, hi as int)),
        decreases hi,
    {
        proof {
            let sub = v@.subrange(lo as int, hi as int);
            assert(sub.len() > 0);
            assert(sub.last() == v@[hi - 1]);
            assert(sub.drop_last() =~= v@.subrange(lo as int, hi as int - 1));
        }
        hi = hi - 1;
    }
    proof {
        let sub = v@.subrange(lo as int, hi as int);
        assert(hi > lo ==> sub.last() == v@[hi - 1]);
        assert(trim_back(sub) == sub);
    }
    let mut r = String::new();
    proof {
        assert(v@.subrange(lo as int, lo as int) =~= Seq::<char>::empty());
    }
    let mut i: usize = lo;
    while i < hi
        invariant
            lo <= i <= hi <= v.len(),
            r@ == v@.subrange(lo as int, i as int),
        decreases hi - i,
    {
        r.push(v[i]);
        proof {
            assert(v@.subrange(lo as int, i as int + 1) =~= v@.subrange(lo as int, i as int).push(
                v@[i as int],
            ));
        }
        i = i + 1;
    }
    proof {
        assert(r@ == v@.subrange(lo as int, hi as int));
    }
    r
}

/// One transition of the field splitter. The state is the fields finished so
/// far, the characters of the field being gathered, whether an opening quote
/// has been seen, and whether the separator that follows a closing quote is
/// still owed.
pub open spec fn parse_step(
    st: (Seq<Seq<char>>, Seq<char>, bool, bool),
    c: char,
) -> (Seq<Seq<char>>, Seq<char>, bool, bool) {
    let (fields, cur, in_quote, pending) = st;
    if c == ',' && !in_quote {
        (fields.push(spec_trim(cur)), Seq::<char>::empty(), in_quote, pending)
    } else if c == '"' && in_quote {
        (fields.push(spec_trim(cur)), Seq::<char>::empty(), in_quote, true)
    } else if c == '"' {
        (fields, cur, true, pending)
    } else if c == ',' && pending {
        (fields, cur, in_quote, false)
    } else {
        (fields, cur.push(c), in_quote, pending)
    }
}

/// The splitter state after reading all of `s`, starting from the empty state.
pub open spec fn parse_run(s: Seq<char>) -> (Seq<Seq<char>>, Seq<char>, bool, bool)
    decreases s.len(),
{
    if s.len() == 0 {
        (Seq::<Seq<char>>::empty(), Seq::<char>::empty(), false, false)
    } else {
        parse_step(parse_run(s.drop_last()), s.last())
    }
}

/// The fields of a line: the splitter is run over every character, and a
/// last unfinished field is kept when it is not empty.
pub open spec fn spec_parse(s: Seq<char>) -> Seq<Seq<char>> {
    let st = parse_run(s);
    if st.1.len() == 0 {
        st.0
    } else {
        st.0.push(spec_trim(st.1))
    }
}

/// A line in which no comma and no double quote occurs.
pub open spec fn plain_line(s: Seq<char>) -> bool {
    forall|i: int| 0 <= i < s.len() ==> (s[i] != ',' && s[i] != '"')
}

proof fn lemma_parse_run_plain(s: Seq<char>)
    requires
        plain_line(s),
    ensures
        parse_run(s) == (Seq::<Seq<char>>::empty(), s, false, false),
    decreases s.len(),
{
    if s.len() == 0 {
        assert(s =~= Seq::<char>::empty());
    } else {
        assert(plain_line(s.drop_last())) by {
            assert(forall|i: int|
                0 <= i < s.drop_last().len() ==> s.drop_last()[i] == s[i]);
        }
        lemma_parse_run_plain(s.drop_last());
        assert(s.last() != ',' && s.last() != '"');
        assert(s.drop_last().push(s.last()) =~= s);
    }
}

/// A line without commas and without quotes is a single field — its own
/// text trimmed — and an empty line has no field at all.
pub proof fn lemma_parse_plain_line(s: Seq<char>)
    requires
        plain_line(s),
    ensures
        s.len() == 0 ==> spec_parse(s) == Seq::<Seq<char>>::empty(),
        s.len() > 0 ==> spec_parse(s) == seq![spec_trim(s)],
{
    lemma_parse_run_plain(s);
    if s.len() > 0 {
        assert(Seq::<Seq<char>>::empty().push(spec_trim(s)) =~= seq![spec_trim(s)]);
    }
}

proof fn lemma_parse_run_snoc(s: Seq<char>, i: int)
    requires
        0 <= i < s.len(),
    ensures
        parse_run(s.take(i + 1)) == parse_step(parse_run(s.take(i)), s[i]),
{
    assert(s.take(i + 1).drop_last() =~= s.take(i));
    assert(s.take(i + 1).last() == s[i]);
}

proof fn lemma_fields_deep_view_push(v1: Vec<String>, v2: Vec<String>, t: String)
    requires
        v2@ == v1@.push(t),
    ensures
        v2.deep_view() == v1.deep_view().push(t@),
{
    assert(v2.deep_view() =~= v1.deep_view().push(t@));
}

/// Splits one line of input into its fields, as `spec_parse` states: fields
/// are separated by commas, a double-quoted field keeps its inner commas,
/// and each field is trimmed of surrounding whitespace.
pub fn parse(buffer: &str) -> (r: Vec<String>)
    ensures
        r.deep_view() == spec_parse(buffer@),
{
    let mut fields: Vec<String> = Vec::new();
    let mut cur: Vec<char> = Vec::new();
    let mut in_quote = false;
    let mut pending = false;
    proof {
        assert(buffer@.take(0) =~= Seq::<char>::empty());
        assert(fields.deep_view() =~= Seq::<Seq<char>>::empty());
    }
    for c in it: buffer.chars()
        invariant
            it.seq() == buffer@,
            fields.deep_view() == parse_run(it.seq().take(it.index() as int)).0,
            cur@ == parse_run(it.seq().take(it.index() as int)).1,
            in_quote == parse_run(it.seq().take(it.index() as int)).2,
            pending == parse_run(it.seq().take(it.index() as int)).3,
    {
        proof {
            lemma_parse_run_snoc(it.seq(), it.index() as int);
        }
        if c == ',' && !in_quote {
            let t = trim_to_string(&cur);
            let ghost pre = fields;
            fields.push(t);
            proof {
                lemma_fields_deep_view_push(pre, fields, fields@.last());
            }
            cur = Vec::new();
        } else if c == '"' && in_quote {
            pending = true;
            let t = trim_to_string(&cur);
            let ghost pre = fields;
            fields.push(t);
            proof {
                lemma_fields_deep_view_push(pre, fields, fields@.last());
            }
            cur = Vec::new();
        } else if c == '"' {
            in_quote = true;
        } else if c == ',' && pending {
            pending = false;
        } else {
            cur.push(c);
        }
    }
    proof {
        assert(buffer@.take(buffer@.len() as int) =~= buffer@);
    }
    if cur.len() != 0 {
        let t = trim_to_string(&cur);
        let ghost pre = fields;
        fields.push(t);
        proof {
            lemma_fields_deep_view_push(pre, fields, fields@.last());
        }
    }
    fields
}

} // verus!
