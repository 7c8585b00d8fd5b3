//! Text handling for captured tool output: byte-for-byte decoding of stdout
//! and stderr, line splitting, filtering for the `UUID=` field of a probe's
//! output, and decimal formatting of partition geometry.

use vstd::prelude::*;

verus! {

/// One char per raw output byte.
pub open spec fn chars_of_bytes(bs: Seq<u8>) -> Seq<char> {
    bs.map_values(|b: u8| b as char)
}

/// A single trailing newline byte is dropped, as interactive tools end their
/// report with one.
pub open spec fn strip_trailing_newline(bs: Seq<u8>) -> Seq<u8> {
    if bs.len() > 0 && bs.last() == 10 {
        bs.drop_last()
    } else {
        bs
    }
}

/// The text a captured output stream stands for.
pub open spec fn decoded_output(bs: Seq<u8>) -> Seq<char> {
    chars_of_bytes(strip_trailing_newline(bs))
}

/// Relies on std's String::push: appends the given char to the end of the
/// string.
#[verifier::external_body]
pub(crate) fn push_char(s: &mut String, c: char)
    ensures
        final(s)@ == old(s)@.push(c),
{
    s.push(c);
}

/// Decodes a captured stdout stream, dropping a single trailing newline.
pub fn output_stdout_string(stdout: &Vec<u8>) -> (r: String)
    ensures
        r@ == decoded_output(stdout@),
{
    let n: usize = stdout.len();
    let m: usize = if n > 0 && stdout[n - 1] == 10u8 {
        n - 1
    } else {
        n
    };
    let mut text = String::new();
    let mut i: usize = 0;
    while i < m
        invariant
            i <= m <= n,
            n == stdout@.len(),
            m == strip_trailing_newline(stdout@).len(),
            text@ == chars_of_bytes(stdout@).take(i as int),
        decreases m - i,
    {
        push_char(&mut text, stdout[i] as char);
        proof {
            assert(chars_of_bytes(stdout@).take(i + 1) =~= chars_of_bytes(stdout@).take(i as int).push(
                stdout@[i as int] as char));
        }
        i = i + 1;
    }
    proof {
        assert(chars_of_bytes(stdout@).take(m as int) =~= chars_of_bytes(strip_trailing_newline(stdout@)));
    }
    text
}

/// Decodes a captured stderr stream, dropping a single trailing newline.
pub fn output_stderr_string(stderr: &Vec<u8>) -> (r: String)
    ensures
        r@ == decoded_output(stderr@),
{
    output_stdout_string(stderr)
}

/// The lines of a text, split on newline characters; a text without newlines
/// is one line, and a trailing newline opens a final empty line.
pub open spec fn line_split(s: Seq<char>) -> Seq<Seq<char>>
    decreases s.len(),
{
    if s.len() == 0 {
        seq![Seq::<char>::empty()]
    } else if s.last() == '\n' {
        line_split(s.drop_last()).push(Seq::<char>::empty())
    } else {
        let prev = line_split(s.drop_last());
        prev.update(prev.len() - 1, prev.last().push(s.last()))
    }
}

pub proof fn lemma_line_split_nonempty(s: Seq<char>)
    ensures
        line_split(s).len() >= 1,
    decreases s.len(),
{
    if s.len() > 0 {
        lemma_line_split_nonempty(s.drop_last());
    }
}

/// A text starts with the given prefix.
pub open spec fn spec_starts_with(s: Seq<char>, p: Seq<char>) -> bool {
    p.len() <= s.len() && s.take(p.len() as int) == p
}

/// The field prefix that the filesystem UUID probe's report carries.
pub open spec fn uuid_prefix() -> Seq<char> {
    seq!['U', 'U', 'I', 'D', '=']
}

/// The lines of interest concatenated: every line that carries the UUID field.
pub open spec fn uuid_field_concat(lines: Seq<Seq<char>>) -> Seq<char>
    decreases lines.len(),
{
    if lines.len() == 0 {
        Seq::<char>::empty()
    } else {
        uuid_field_concat(lines.drop_last()) + (if spec_starts_with(lines.last(), uuid_prefix()) {
            lines.last()
        } else {
            Seq::<char>::empty()
        })
    }
}

/// The UUID field of a probe's raw stdout: its output decoded, split into
/// lines, and the `UUID=` lines kept.
pub open spec fn blkid_uuid_field(stdout: Seq<u8>) -> Seq<char> {
    uuid_field_concat(line_split(decoded_output(stdout)))
}

pub(crate) fn starts_with_uuid(s: &String) -> (b: bool)
    ensures
        b == spec_starts_with(s@, uuid_prefix()),
{
    let n: usize = s.as_str().unicode_len();
    if n < 5 {
        return false;
    }
    let c0 = s.as_str().get_char(0);
    let c1 = s.as_str().get_char(1);
    let c2 = s.as_str().get_char(2);
    let c3 = s.as_str().get_char(3);
    let c4 = s.as_str().get_char(4);
    let b = c0 == 'U' && c1 == 'U' && c2 == 'I' && c3 == 'D' && c4 == '=';
    proof {
        if b {
            assert(s@.take(5) =~= uuid_prefix());
        } else {
            assert(s@.take(5) != uuid_prefix()) by {
                if s@.take(5) == uuid_prefix() {
                    assert(s@.take(5)[0] == 'U');
                    assert(s@.take(5)[1] == 'U');
                    assert(s@.take(5)[2] == 'I');
                    assert(s@.take(5)[3] == 'D');
                    assert(s@.take(5)[4] == '=');
                }
            }
        }
    }
    b
}

/// Keeps exactly the lines of a text that carry the UUID field, concatenated
/// in order without separators.
pub fn filter_uuid_lines(text: &String) -> (r: String)
    ensures
        r@ == uuid_field_concat(line_split(text@)),
{
    let n: usize = text.as_str().unicode_len();
    let mut res = String::new();
    let mut cur = String::new();
    let mut i: usize = 0;
    proof {
        lemma_line_split_nonempty(text@.take(0));
    }
    while i < n
        invariant
            i <= n,
            n == text@.len(),
            line_split(text@.take(i as int)).len() >= 1,
            cur@ == line_split(text@.take(i as int)).last(),
            res@ == uuid_field_concat(line_split(text@.take(i as int)).drop_last()),
        decreases n - i,
    {
        let c = text.as_str().get_char(i);
        let ghost prev = line_split(text@.take(i as int));
        proof {
            assert(text@.take(i + 1).drop_last() =~= text@.take(i as int));
            assert(text@.take(i + 1).last() == text@[i as int]);
            lemma_line_split_nonempty(text@.take(i + 1));
        }
        if c == '\n' {
            proof {
                assert(line_split(text@.take(i + 1)) =~= prev.push(Seq::<char>::empty()));
                assert(prev.push(Seq::<char>::empty()).drop_last() =~= prev);
            }
            if starts_with_uuid(&cur) {
                res.append(cur.as_str());
            }
            cur = String::new();
        } else {
            let ghost next = prev.update(prev.len() - 1, prev.last().push(c));
            proof {
                assert(line_split(text@.take(i + 1)) =~= next);
                assert(next.drop_last() =~= prev.drop_last());
                assert(next.last() == prev.last().push(c));
            }
            push_char(&mut cur, c);
        }
        i = i + 1;
    }
    proof {
        assert(text@.take(n as int) =~= text@);
    }
    if starts_with_uuid(&cur) {
        res.append(cur.as_str());
    }
    res
}

/// The UUID field read from the probe's captured stdout.
pub fn parse_blkid_uuid(stdout: &Vec<u8>) -> (r: String)
    ensures
        r@ == blkid_uuid_field(stdout@),
{
    let text = output_stdout_string(stdout);
    filter_uuid_lines(&text)
}

/// The decimal digit characters of a number, most significant first.
pub open spec fn dec_digits(n: nat) -> Seq<char>
    decreases n,
{
    if n < 10 {
        seq![digit_char(n)]
    } else {
        dec_digits(n / 10).push(digit_char(n % 10))
    }
}

/// The character for one decimal digit.
pub open spec fn digit_char(d: nat) -> char {
    if d == 0 {
        '0'
    } else if d == 1 {
        '1'
    } else if d == 2 {
        '2'
    } else if d == 3 {
        '3'
    } else if d == 4 {
        '4'
    } else if d == 5 {
        '5'
    } else if d == 6 {
        '6'
    } else if d == 7 {
        '7'
    } else if d == 8 {
        '8'
    } else {
        '9'
    }
}

fn digit_of(d: u64) -> (c: char)
    requires
        d < 10,
    ensures
        c == digit_char(d as nat),
{
    if d == 0 {
        '0'
    } else if d == 1 {
        '1'
    } else if d == 2 {
        '2'
    } else if d == 3 {
        '3'
    } else if d == 4 {
        '4'
    } else if d == 5 {
        '5'
    } else if d == 6 {
        '6'
    } else if d == 7 {
        '7'
    } else if d == 8 {
        '8'
    } else {
        '9'
    }
}

/// The decimal rendering of a number.
pub fn u64_to_string(n: u64) -> (r: String)
    ensures
        r@ == dec_digits(n as nat),
{
    let mut rev: Vec<char> = Vec::new();
    let mut m: u64 = n;
    while m >= 10
        invariant
            dec_digits(n as nat) =~= dec_digits(m as nat) + rev@.reverse(),
        decreases m,
    {
        let ghost rev0 = rev@;
        let d = digit_of(m % 10);
        rev.push(d);
        proof {
            assert(rev@.reverse() =~= seq![d] + rev0.reverse());
            assert(dec_digits(m as nat) == dec_digits((m / 10) as nat).push(digit_char((m % 10) as nat)));
            assert(dec_digits(m as nat) + rev0.reverse() =~= dec_digits((m / 10) as nat) + rev@.reverse());
        }
        m = m / 10;
    }
    let mut r = String::new();
    push_char(&mut r, digit_of(m));
    let ghost full = dec_digits(n as nat);
    let total: usize = rev.len();
    proof {
        assert(full =~= seq![digit_char(m as nat)] + rev@.reverse());
        assert(r@ =~= full.take(1));
    }
    let mut j: usize = 0;
    while j < total
        invariant
            j <= total,
            total == rev@.len(),
            full == seq![digit_char(m as nat)] + rev@.reverse(),
            r@ == full.take(1 + j),
        decreases total - j,
    {
        push_char(&mut r, rev[total - 1 - j]);
        proof {
            assert(full[1 + j] == rev@.reverse()[j as int]);
            assert(full.take(1 + j + 1) =~= full.take(1 + j).push(rev@[total - 1 - j]));
        }
        j = j + 1;
    }
    proof {
        assert(full.take(1 + total) =~= full);
    }
    r
}


/// The lines of a text, in order.
pub fn split_lines(text: &String) -> (r: Vec<String>)
    ensures
        r.deep_view() == line_split(text@),
{
    let n: usize = text.as_str().unicode_len();
    let mut out: Vec<String> = Vec::new();
    let mut cur = String::new();
    let mut i: usize = 0;
    proof {
        lemma_line_split_nonempty(text@.take(0));
        assert(out.deep_view() =~= line_split(text@.take(0)).drop_last());
    }
    while i < n
        invariant
            i <= n,
            n == text@.len(),
            line_split(text@.take(i as int)).len() >= 1,
            cur@ == line_split(text@.take(i as int)).last(),
            out.deep_view() =~= line_split(text@.take(i as int)).drop_last(),
        decreases n - i,
    {
        let c = text.as_str().get_char(i);
        let ghost prev = line_split(text@.take(i as int));
        proof {
            assert(text@.take(i + 1).drop_last() =~= text@.take(i as int));
            assert(text@.take(i + 1).last() == text@[i as int]);
            lemma_line_split_nonempty(text@.take(i + 1));
        }
        if c == '\n' {
            proof {
                assert(line_split(text@.take(i + 1)) =~= prev.push(Seq::<char>::empty()));
                assert(prev.push(Seq::<char>::empty()).drop_last() =~= prev);
            }
            let ghost cur0 = cur@;
            let ghost out0 = out.deep_view();
            out.push(cur);
            proof {
                assert(out.deep_view() =~= out0.push(cur0));
                assert(prev =~= prev.drop_last().push(prev.last()));
            }
            cur = String::new();
        } else {
            let ghost next = prev.update(prev.len() - 1, prev.last().push(c));
            proof {
                assert(line_split(text@.take(i + 1)) =~= next);
                assert(next.drop_last() =~= prev.drop_last());
                assert(next.last() == prev.last().push(c));
            }
            push_char(&mut cur, c);
        }
        i = i + 1;
    }
    proof {
        assert(text@.take(n as int) =~= text@);
    }
    let ghost curn = cur@;
    let ghost outn = out.deep_view();
    out.push(cur);
    proof {
        assert(out.deep_view() =~= outn.push(curn));
        assert(line_split(text@) =~= line_split(text@).drop_last().push(line_split(text@).last()));
    }
    out
}

/// Whether a name occurs in a list of names.
pub fn contains_string(v: &Vec<String>, s: &String) -> (b: bool)
    ensures
        b == v.deep_view().contains(s@),
{
    let n: usize = v.len();
    let mut i: usize = 0;
    while i < n
        invariant
            i <= n,
            n == v@.len(),
            forall|j: int| 0 <= j < i ==> v.deep_view()[j] != s@,
        decreases n - i,
    {
        if s.eq(&v[i]) {
            proof {
                assert(v.deep_view()[i as int] == s@);
            }
            return true;
        }
        i = i + 1;
    }
    proof {
        assert(!v.deep_view().contains(s@)) by {
            if v.deep_view().contains(s@) {
                let j = choose|j: int|
                    0 <= j < v.deep_view().len() && v.deep_view()[j] == s@;
            }
        }
    }
    false
}

} // verus!
