use vstd::prelude::*;

verus! {

/// The display form of a three-word address: every `.` becomes one space,
/// every other character is kept.
pub open spec fn replace_dots_spec(s: Seq<char>) -> Seq<char> {
    s.map_values(|c: char| if c == '.' { ' ' } else { c })
}

/// How many times `c` occurs in `s`.
pub open spec fn count_char(s: Seq<char>, c: char) -> nat
    decreases s.len(),
{
    if s.len() == 0 {
        0
    } else {
        count_char(s.drop_last(), c) + if s.last() == c { 1nat } else { 0nat }
    }
}

/// Relies on String::push: appends exactly the given character.
#[verifier::external_body]
fn push_char(s: &mut String, c: char)
    ensures
        final(s)@ == old(s)@.push(c),
{
    s.push(c);
}

/// Replaces every `.` in `s` with a space, keeping everything else.
pub fn replace_dots(s: &str) -> (r: String)
    ensures
        r@ == replace_dots_spec(s@),
{
    let n = s.unicode_len();
    let mut r = String::new();
    let mut i: usize = 0;
    while i < n
        invariant
            n == s@.len(),
            0 <= i <= n,
            r@ == replace_dots_spec(s@.take(i as int)),
        decreases n - i,
    {
        let c = s.get_char(i);
        if c == '.' {
            push_char(&mut r, ' ');
        } else {
            push_char(&mut r, c);
        }
        proof {
            assert(s@.take(i + 1).drop_last() =~= s@.take(i as int));
            assert(r@ =~= replace_dots_spec(s@.take(i + 1)));
        }
        i = i + 1;
    }
    proof {
        assert(s@.take(n as int) =~= s@);
    }
    r
}

/// Replacing dots leaves no dot behind, and every dot became one more space:
/// the result has as many spaces as the input had spaces and dots together.
pub proof fn lemma_replace_counts(s: Seq<char>)
    ensures
        count_char(replace_dots_spec(s), '.') == 0,
        count_char(replace_dots_spec(s), ' ') == count_char(s, ' ') + count_char(s, '.'),
    decreases s.len(),
{
    if s.len() == 0 {
        assert(replace_dots_spec(s) =~= Seq::<char>::empty());
    } else {
        lemma_replace_counts(s.drop_last());
        assert(replace_dots_spec(s).drop_last() =~= replace_dots_spec(s.drop_last()));
        assert(replace_dots_spec(s).last() == if s.last() == '.' {
            ' '
        } else {
            s.last()
        });
    }
}

/// Law: a string with exactly two dot separators and no spaces turns into one
/// with exactly two space separators and no dots.
pub proof fn lemma_two_separators(s: Seq<char>)
    requires
        count_char(s, '.') == 2,
        count_char(s, ' ') == 0,
    ensures
        count_char(replace_dots_spec(s), ' ') == 2,
        count_char(replace_dots_spec(s), '.') == 0,
{
    lemma_replace_counts(s);
}

/// The transform leaves `s` unchanged exactly when `s` has no dot.
pub proof fn lemma_replace_identity(s: Seq<char>)
    ensures
        replace_dots_spec(s) == s <==> count_char(s, '.') == 0,
    decreases s.len(),
{
    if s.len() == 0 {
        assert(replace_dots_spec(s) =~= s);
    } else {
        lemma_replace_identity(s.drop_last());
        assert(replace_dots_spec(s).drop_last() =~= replace_dots_spec(s.drop_last()));
        if count_char(s, '.') == 0 {
            assert(s.last() != '.');
            assert(replace_dots_spec(s) =~= replace_dots_spec(s.drop_last()).push(s.last()));
            assert(s =~= s.drop_last().push(s.last()));
            assert(replace_dots_spec(s) =~= s);
        } else {
            if replace_dots_spec(s) == s {
                assert(forall|i: int|
                    0 <= i < s.len() ==> #[trigger] replace_dots_spec(s)[i] == s[i]);
                assert(forall|i: int| 0 <= i < s.len() ==> s[i] != '.') by {
                    assert(forall|i: int|
                        0 <= i < s.len() && s[i] == '.' ==> #[trigger] replace_dots_spec(s)[i]
                            == ' ');
                }
                lemma_no_dot_count(s);
            }
        }
    }
}

/// A string in which no position holds `c` has count zero for `c`.
proof fn lemma_no_dot_count(s: Seq<char>)
    requires
        forall|i: int| 0 <= i < s.len() ==> s[i] != '.',
    ensures
        count_char(s, '.') == 0,
    decreases s.len(),
{
    if s.len() > 0 {
        lemma_no_dot_count(s.drop_last());
    }
}

/// Law: the transform is idempotent — a second application changes nothing,
/// since the first left no dot behind.
pub proof fn lemma_replace_idempotent(s: Seq<char>)
    ensures
        replace_dots_spec(replace_dots_spec(s)) == replace_dots_spec(s),
{
    lemma_replace_counts(s);
    lemma_replace_identity(replace_dots_spec(s));
}

} // verus!
