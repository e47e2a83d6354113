use crate::response::bytes_to_string;
use vstd::prelude::*;
use vstd::slice::{slice_subrange, slice_to_vec};
use vstd::utf8::{decode_utf8, valid_utf8};

verus! {

/// The byte of a comma, the field separator.
pub const COMMA: u8 = 44;

/// The byte of a line feed, the row separator.
pub const NEWLINE: u8 = 10;

/// The byte of a space.
pub const SPACE: u8 = 32;

/// The byte of a horizontal tab.
pub const TAB: u8 = 9;

/// The byte of a carriage return.
pub const CARRIAGE_RETURN: u8 = 13;

/// One parsed input row: the place label and the decimal texts of the
/// latitude and the longitude, exactly as they stood in the file.
pub struct Row {
    pub label: String,
    pub lat: String,
    pub lng: String,
}

/// A row as three character sequences: label, latitude text, longitude text.
pub open spec fn row_view(r: Row) -> (Seq<char>, Seq<char>, Seq<char>) {
    (r.label@, r.lat@, r.lng@)
}

/// The pieces of `s` between occurrences of `sep`: always at least one piece,
/// and a separator at either end or two in a row yield an empty piece.
pub open spec fn split_on_spec(s: Seq<u8>, sep: u8) -> Seq<Seq<u8>>
    decreases s.len(),
{
    if s.len() == 0 {
        seq![Seq::<u8>::empty()]
    } else if s[0] == sep {
        seq![Seq::<u8>::empty()] + split_on_spec(s.skip(1), sep)
    } else {
        let rest = split_on_spec(s.skip(1), sep);
        seq![seq![s[0]] + rest[0]] + rest.skip(1)
    }
}

/// Splitting yields at least one piece.
pub proof fn lemma_split_len(s: Seq<u8>, sep: u8)
    ensures
        split_on_spec(s, sep).len() >= 1,
    decreases s.len(),
{
    if s.len() > 0 {
        lemma_split_len(s.skip(1), sep);
    }
}

/// Cuts `s` at every occurrence of `sep`.
pub fn split_on(s: &[u8], sep: u8) -> (r: Vec<Vec<u8>>)
    ensures
        r@.map_values(|p: Vec<u8>| p@) == split_on_spec(s@, sep),
    decreases s@.len(),
{
    proof {
        lemma_split_len(s@, sep);
    }
    if s.len() == 0 {
        let mut r: Vec<Vec<u8>> = Vec::new();
        r.push(Vec::new());
        proof {
            assert(r@.map_values(|p: Vec<u8>| p@) =~~= split_on_spec(s@, sep));
        }
        r
    } else {
        let head = *vstd::slice::slice_index_get(s, 0);
        let tail = slice_subrange(s, 1, s.len());
        proof {
            assert(tail@ =~= s@.skip(1));
        }
        let mut r = split_on(tail, sep);
        proof {
            lemma_split_len(tail@, sep);
            assert(r@.len() >= 1) by {
                assert(r@.map_values(|p: Vec<u8>| p@).len() == r@.len());
            }
        }
        if head == sep {
            r.insert(0, Vec::new());
            proof {
                assert(r@.map_values(|p: Vec<u8>| p@) =~~= split_on_spec(s@, sep));
            }
            r
        } else {
            let mut first = r.remove(0);
            first.insert(0, head);
            r.insert(0, first);
            proof {
                assert(r@.map_values(|p: Vec<u8>| p@) =~~= split_on_spec(s@, sep));
            }
            r
        }
    }
}

/// The bytes dropped at a field's ends: space, tab and carriage return.
pub open spec fn is_blank(b: u8) -> bool {
    b == SPACE || b == TAB || b == CARRIAGE_RETURN
}

/// `s` without its leading blanks.
pub open spec fn trim_front_spec(s: Seq<u8>) -> Seq<u8>
    decreases s.len(),
{
    if s.len() > 0 && is_blank(s[0]) {
        trim_front_spec(s.skip(1))
    } else {
        s
    }
}

/// `s` without its trailing blanks.
pub open spec fn trim_back_spec(s: Seq<u8>) -> Seq<u8>
    decreases s.len(),
{
    if s.len() > 0 && is_blank(s.last()) {
        trim_back_spec(s.drop_last())
    } else {
        s
    }
}

/// `s` without its leading and trailing blanks.
pub open spec fn trim_spec(s: Seq<u8>) -> Seq<u8> {
    trim_back_spec(trim_front_spec(s))
}

/// Drops leading and trailing blanks.
pub fn trim(s: &[u8]) -> (r: Vec<u8>)
    ensures
        r@ == trim_spec(s@),
{
    let mut i: usize = 0;
    proof {
        assert(s@.skip(0) =~= s@);
    }
    loop
        invariant
            0 <= i <= s@.len(),
            trim_front_spec(s@) == trim_front_spec(s@.skip(i as int)),
        ensures
            0 <= i <= s@.len(),
            trim_front_spec(s@) == s@.skip(i as int),
        decreases s@.len() - i,
    {
        if i == s.len() {
            proof {
                assert(s@.skip(i as int) =~= Seq::<u8>::empty());
            }
            break ;
        }
        let b = *vstd::slice::slice_index_get(s, i);
        proof {
            assert(s@.skip(i as int)[0] == s@[i as int]);
        }
        if !(b == SPACE || b == TAB || b == CARRIAGE_RETURN) {
            break ;
        }
        proof {
            assert(s@.skip(i as int).skip(1) =~= s@.skip(i + 1));
        }
        i = i + 1;
    }
    let mut j: usize = s.len();
    proof {
        assert(s@.skip(i as int) =~= s@.subrange(i as int, s@.len() as int));
    }
    loop
        invariant
            0 <= i <= j <= s@.len(),
            trim_front_spec(s@) == s@.skip(i as int),
            trim_back_spec(s@.skip(i as int)) == trim_back_spec(s@.subrange(i as int, j as int)),
        ensures
            0 <= i <= j <= s@.len(),
            trim_spec(s@) == s@.subrange(i as int, j as int),
        decreases j,
    {
        if j == i {
            proof {
                assert(s@.subrange(i as int, j as int) =~= Seq::<u8>::empty());
            }
            break ;
        }
        let b = *vstd::slice::slice_index_get(s, j - 1);
        proof {
            let t = s@.subrange(i as int, j as int);
            assert(t.last() == s@[j - 1]);
        }
        if !(b == SPACE || b == TAB || b == CARRIAGE_RETURN) {
            break ;
        }
        proof {
            let t = s@.subrange(i as int, j as int);
            assert(t.drop_last() =~= s@.subrange(i as int, j - 1));
        }
        j = j - 1;
    }
    let piece = slice_subrange(s, i, j);
    slice_to_vec(piece)
}

/// The trimmed comma-separated fields of one line.
pub open spec fn line_fields(line: Seq<u8>) -> Seq<Seq<u8>> {
    split_on_spec(line, COMMA).map_values(|f: Seq<u8>| trim_spec(f))
}

/// One line parsed: its three trimmed fields as text, or nothing when the
/// line does not hold exactly three fields of valid text.
pub open spec fn parse_line_spec(line: Seq<u8>) -> Option<(Seq<char>, Seq<char>, Seq<char>)> {
    let fs = line_fields(line);
    if fs.len() == 3 && valid_utf8(fs[0]) && valid_utf8(fs[1]) && valid_utf8(fs[2]) {
        Some((decode_utf8(fs[0]), decode_utf8(fs[1]), decode_utf8(fs[2])))
    } else {
        None
    }
}

/// Parses one line into a row: exactly three comma-separated fields, each
/// trimmed of surrounding blanks, each valid text; anything else is malformed.
pub fn parse_line(line: &[u8]) -> (r: Option<Row>)
    ensures
        r is Some <==> parse_line_spec(line@) is Some,
        r is Some ==> row_view(r->0) == parse_line_spec(line@)->0,
{
    let fields = split_on(line, COMMA);
    if fields.len() != 3 {
        proof {
            assert(line_fields(line@).len() != 3);
        }
        return None;
    }
    let f0 = trim(fields[0].as_slice());
    let f1 = trim(fields[1].as_slice());
    let f2 = trim(fields[2].as_slice());
    proof {
        assert(f0@ == line_fields(line@)[0]);
        assert(f1@ == line_fields(line@)[1]);
        assert(f2@ == line_fields(line@)[2]);
    }
    let label = match bytes_to_string(f0) {
        Some(t) => t,
        None => {
            return None;
        },
    };
    let lat = match bytes_to_string(f1) {
        Some(t) => t,
        None => {
            return None;
        },
    };
    let lng = match bytes_to_string(f2) {
        Some(t) => t,
        None => {
            return None;
        },
    };
    Some(Row { label, lat, lng })
}

/// The rows of a sequence of lines: empty lines are skipped, any malformed
/// line makes the whole input malformed.
pub open spec fn parse_lines_spec(lines: Seq<Seq<u8>>) -> Option<
    Seq<(Seq<char>, Seq<char>, Seq<char>)>,
>
    decreases lines.len(),
{
    if lines.len() == 0 {
        Some(Seq::empty())
    } else if lines[0].len() == 0 {
        parse_lines_spec(lines.skip(1))
    } else {
        match parse_line_spec(lines[0]) {
            Some(row) => match parse_lines_spec(lines.skip(1)) {
                Some(rest) => Some(seq![row] + rest),
                None => None,
            },
            None => None,
        }
    }
}

/// The rows of a whole input: its newline-separated lines, parsed in order.
pub open spec fn rows_spec(data: Seq<u8>) -> Option<Seq<(Seq<char>, Seq<char>, Seq<char>)>> {
    parse_lines_spec(split_on_spec(data, NEWLINE))
}

/// Parses a whole input into its rows, in input order: one row per non-empty
/// newline-separated line, or nothing as soon as one line is malformed.
pub fn parse_rows(data: &[u8]) -> (r: Option<Vec<Row>>)
    ensures
        r is Some <==> rows_spec(data@) is Some,
        r is Some ==> r->0@.map_values(|row: Row| row_view(row)) == rows_spec(data@)->0,
{
    let lines = split_on(data, NEWLINE);
    let ghost lviews = lines@.map_values(|p: Vec<u8>| p@);
    let mut rows: Vec<Row> = Vec::new();
    let mut k: usize = 0;
    proof {
        assert(lviews.skip(0) =~= lviews);
        if parse_lines_spec(lviews) is Some {
            assert(rows@.map_values(|row: Row| row_view(row)) + parse_lines_spec(lviews)->0
                =~= parse_lines_spec(lviews)->0);
        }
    }
    while k < lines.len()
        invariant
            0 <= k <= lines@.len(),
            lviews == lines@.map_values(|p: Vec<u8>| p@),
            lviews == split_on_spec(data@, NEWLINE),
            parse_lines_spec(lviews) == match parse_lines_spec(lviews.skip(k as int)) {
                Some(rest) => Some(rows@.map_values(|row: Row| row_view(row)) + rest),
                None => None::<Seq<(Seq<char>, Seq<char>, Seq<char>)>>,
            },
        decreases lines@.len() - k,
    {
        let line = &lines[k];
        proof {
            assert(lviews.skip(k as int)[0] == line@);
            assert(lviews.skip(k as int).skip(1) =~= lviews.skip(k + 1));
        }
        if line.len() == 0 {
            k = k + 1;
            continue;
        }
        match parse_line(line.as_slice()) {
            Some(row) => {
                let ghost old_rows = rows@;
                rows.push(row);
                proof {
                    assert(rows@.map_values(|r2: Row| row_view(r2)) =~= old_rows.map_values(
                        |r2: Row| row_view(r2),
                    ).push(row_view(row)));
                    if parse_lines_spec(lviews.skip(k + 1)) is Some {
                        let rest = parse_lines_spec(lviews.skip(k + 1))->0;
                        assert(old_rows.map_values(|r2: Row| row_view(r2)) + (seq![
                            row_view(row),
                        ] + rest) =~= rows@.map_values(|r2: Row| row_view(r2)) + rest);
                    }
                }
            },
            None => {
                return None;
            },
        }
        k = k + 1;
    }
    proof {
        assert(lviews.skip(lviews.len() as int) =~= Seq::<Seq<u8>>::empty());
        assert(parse_lines_spec(lviews) == Some(
            rows@.map_values(|row: Row| row_view(row)) + Seq::<(
                Seq<char>,
                Seq<char>,
                Seq<char>,
            )>::empty(),
        ));
        assert(rows@.map_values(|row: Row| row_view(row)) + Seq::<(
            Seq<char>,
            Seq<char>,
            Seq<char>,
        )>::empty() =~= rows@.map_values(|row: Row| row_view(row)));
    }
    Some(rows)
}

} // verus!
