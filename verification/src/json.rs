use vstd::prelude::*;
use vstd::string::StrSliceExecFns;
use crate::blob::Blob;

verus! {

/// Hexadecimal digit (lower case) for a value below sixteen.
pub open spec fn hex_digit(v: int) -> char {
    if 0 <= v < 10 {
        ((48 + v) as u32) as char
    } else {
        ((97 + (v - 10)) as u32) as char
    }
}

/// JSON escape of one character: quote and backslash escaped, control
/// characters as their short escapes or as \u00xx, all others unchanged.
pub open spec fn esc_char(c: char) -> Seq<char> {
    let u = c as u32;
    if c == '"' {
        seq!['\\', '"']
    } else if c == '\\' {
        seq!['\\', '\\']
    } else if u == 8 {
        seq!['\\', 'b']
    } else if u == 9 {
        seq!['\\', 't']
    } else if u == 10 {
        seq!['\\', 'n']
    } else if u == 12 {
        seq!['\\', 'f']
    } else if u == 13 {
        seq!['\\', 'r']
    } else if u < 32 {
        seq!['\\', 'u', '0', '0', hex_digit(u as int / 16), hex_digit(u as int % 16)]
    } else {
        seq![c]
    }
}

/// JSON escape of a whole string, character by character.
pub open spec fn esc(s: Seq<char>) -> Seq<char>
    decreases s.len(),
{
    if s.len() == 0 {
        Seq::empty()
    } else {
        esc(s.drop_last()) + esc_char(s.last())
    }
}

/// A JSON string token: the text escaped, in double quotes.
pub open spec fn json_string(s: Seq<char>) -> Seq<char> {
    seq!['"'] + esc(s) + seq!['"']
}

/// One `"key":"value"` member.
pub open spec fn json_member(key: Seq<char>, value: Seq<char>) -> Seq<char> {
    json_string(key) + seq![':'] + json_string(value)
}

/// The members of the metadata object, comma separated, in the order the
/// pairs were given.
pub open spec fn json_pairs(pairs: Seq<(Seq<char>, Seq<char>)>) -> Seq<char>
    decreases pairs.len(),
{
    if pairs.len() == 0 {
        Seq::empty()
    } else if pairs.len() == 1 {
        json_member(pairs[0].0, pairs[0].1)
    } else {
        json_pairs(pairs.drop_last()) + seq![','] + json_member(pairs.last().0, pairs.last().1)
    }
}

/// The blob as one flat JSON object: the five fields in declared order,
/// then the metadata object, which is omitted entirely when none was set.
pub open spec fn json_of(b: &Blob) -> Seq<char> {
    let head = seq!['{'] + json_member("name"@, b.name@) + seq![','] + json_member(
        "content_type"@,
        b.content_type@,
    ) + seq![','] + json_member("content_encoding"@, b.content_encoding@) + seq![','] + json_member(
        "content_transfer_encoding"@,
        b.content_transfer_encoding@,
    ) + seq![','] + json_member("body"@, b.body@);
    match b.metadata.deep_view() {
        None => head + seq!['}'],
        Some(pairs) => head + seq![','] + json_string("metadata"@) + seq![':', '{'] + json_pairs(
            pairs,
        ) + seq!['}', '}'],
    }
}

fn hex_char(v: u8) -> (r: char)
    requires
        v < 16,
    ensures
        r == hex_digit(v as int),
{
    if v < 10 {
        (48 + v) as char
    } else {
        (97 + v - 10) as char
    }
}

fn push_escaped_char(out: &mut Vec<char>, c: char)
    ensures
        final(out)@ == old(out)@ + esc_char(c),
{
    let u = c as u32;
    if c == '"' {
        out.push('\\');
        out.push('"');
    } else if c == '\\' {
        out.push('\\');
        out.push('\\');
    } else if u == 8 {
        out.push('\\');
        out.push('b');
    } else if u == 9 {
        out.push('\\');
        out.push('t');
    } else if u == 10 {
        out.push('\\');
        out.push('n');
    } else if u == 12 {
        out.push('\\');
        out.push('f');
    } else if u == 13 {
        out.push('\\');
        out.push('r');
    } else if u < 32 {
        out.push('\\');
        out.push('u');
        out.push('0');
        out.push('0');
        out.push(hex_char((u / 16) as u8));
        out.push(hex_char((u % 16) as u8));
    } else {
        out.push(c);
    }
    proof {
        assert(final(out)@ =~= old(out)@ + esc_char(c));
    }
}

fn push_json_string(out: &mut Vec<char>, s: &str)
    ensures
        final(out)@ == old(out)@ + json_string(s@),
{
    out.push('"');
    let n = s.unicode_len();
    let mut i: usize = 0;
    while i < n
        invariant
            n == s@.len(),
            i <= n,
            out@ == old(out)@ + seq!['"'] + esc(s@.take(i as int)),
        decreases n - i,
    {
        let c = s.get_char(i);
        push_escaped_char(&mut *out, c);
        proof {
            assert(s@.take(i + 1).drop_last() =~= s@.take(i as int));
            assert(s@.take(i + 1).last() == s@[i as int]);
            assert(out@ =~= old(out)@ + seq!['"'] + esc(s@.take(i + 1)));
        }
        i = i + 1;
    }
    out.push('"');
    proof {
        assert(s@.take(n as int) =~= s@);
        assert(final(out)@ =~= old(out)@ + json_string(s@));
    }
}

fn push_member(out: &mut Vec<char>, key: &str, value: &str)
    ensures
        final(out)@ == old(out)@ + json_member(key@, value@),
{
    push_json_string(&mut *out, key);
    out.push(':');
    push_json_string(&mut *out, value);
    proof {
        assert(final(out)@ =~= old(out)@ + json_member(key@, value@));
    }
}

/// Relies on String::from_iter: collects exactly the given characters, in
/// order, into one string.
#[verifier::external_body]
fn chars_to_string(v: &Vec<char>) -> (r: String)
    ensures
        r@ == v@,
{
    v.iter().collect()
}

impl Blob {
    /// Serializes the blob to its JSON text: one flat object, the fields in
    /// declared order, the metadata member present exactly when metadata was
    /// set on the builder that built the blob. The metadata must be a
    /// mapping (keys pairwise distinct, as every blob the builders yield
    /// has), so that the emitted object never repeats a key.
    pub fn to_json(&self) -> (r: String)
        requires
            crate::blob::blob_metadata_distinct(self),
        ensures
            r@ == json_of(self),
    {
        let mut out: Vec<char> = Vec::new();
        out.push('{');
        push_member(&mut out, "name", self.name.as_str());
        out.push(',');
        push_member(&mut out, "content_type", self.content_type.as_str());
        out.push(',');
        push_member(&mut out, "content_encoding", self.content_encoding.as_str());
        out.push(',');
        push_member(&mut out, "content_transfer_encoding", self.content_transfer_encoding.as_str());
        out.push(',');
        push_member(&mut out, "body", self.body.as_str());
        match &self.metadata {
            None => {
                out.push('}');
            },
            Some(pairs) => {
                out.push(',');
                push_json_string(&mut out, "metadata");
                out.push(':');
                out.push('{');
                let ghost start = out@;
                let mut i: usize = 0;
                while i < pairs.len()
                    invariant
                        i <= pairs@.len(),
                        out@ == start + json_pairs(pairs.deep_view().take(i as int)),
                    decreases pairs@.len() - i,
                {
                    if i > 0 {
                        out.push(',');
                    }
                    push_member(&mut out, pairs[i].0.as_str(), pairs[i].1.as_str());
                    proof {
                        let dv = pairs.deep_view();
                        assert(dv.take(i + 1).drop_last() =~= dv.take(i as int));
                        assert(dv.take(i + 1).last() == dv[i as int]);
                        assert(dv[i as int].0 == pairs@[i as int].0@);
                        assert(dv[i as int].1 == pairs@[i as int].1@);
                        assert(out@ =~= start + json_pairs(dv.take(i + 1)));
                    }
                    i = i + 1;
                }
                proof {
                    assert(pairs.deep_view().take(pairs@.len() as int) =~= pairs.deep_view());
                }
                out.push('}');
                out.push('}');
            },
        }
        proof {
            assert(out@ =~= json_of(self));
        }
        chars_to_string(&out)
    }
}

} // verus!
