//! Secret values, such as API tokens, that are never shown whole.
use vstd::prelude::*;

verus! {

/// A secret string that should never be shown.
#[derive(Clone, PartialEq)]
pub struct Secret {
    value: String,
}

impl View for Secret {
    type V = Seq<char>;

    closed spec fn view(&self) -> Seq<char> {
        self.value@
    }
}

/// The number of bytes of a character in UTF-8.
pub open spec fn utf8_width(c: char) -> nat {
    let v = c as u32;
    if v < 0x80 {
        1
    } else if v < 0x800 {
        2
    } else if v < 0x10000 {
        3
    } else {
        4
    }
}

/// The number of bytes of a text in UTF-8.
pub open spec fn utf8_length(s: Seq<char>) -> nat
    decreases s.len(),
{
    if s.len() == 0 {
        0
    } else {
        utf8_length(s.drop_last()) + utf8_width(s.last())
    }
}

/// Whether the text's first three bytes end between two characters.
pub open spec fn has_hint(value: Seq<char>) -> bool {
    exists|n: int| 0 <= n <= value.len() && #[trigger] utf8_length(value.take(n)) == 3
}

/// The characters that make up the text's first three bytes.
pub open spec fn hint_text(value: Seq<char>) -> Seq<char> {
    value.take(choose|n: int| 0 <= n <= value.len() && #[trigger] utf8_length(value.take(n)) == 3)
}

/// How a secret is shown: its first three bytes, then `***`.
pub open spec fn masked(value: Seq<char>) -> Seq<char> {
    hint_text(value) + "***"@
}

/// Each character adds at least one byte.
proof fn lemma_utf8_prefix_grows(s: Seq<char>, a: int, b: int)
    requires
        0 <= a <= b <= s.len(),
    ensures
        utf8_length(s.take(a)) + (b - a) <= utf8_length(s.take(b)),
    decreases b - a,
{
    if a < b {
        lemma_utf8_prefix_grows(s, a, b - 1);
        assert(s.take(b).drop_last() =~= s.take(b - 1));
    }
}

impl Secret {
    /// Keeps `secret` as a secret.
    pub fn new(secret: String) -> (r: Secret)
        ensures
            r@ == secret@,
    {
        Secret { value: secret }
    }

    /// The first three bytes, which are enough to tell secrets apart. They
    /// must end between two characters.
    pub fn hint(&self) -> (r: &str)
        requires
            has_hint(self@),
        ensures
            r@ == hint_text(self@),
    {
        let text = self.value.as_str();
        let len = text.unicode_len();
        let ghost s = self@;
        let ghost n = choose|n: int| 0 <= n <= s.len() && #[trigger] utf8_length(s.take(n)) == 3;
        let mut i: usize = 0;
        let mut bytes: u32 = 0;
        assert(s.take(0) =~= Seq::<char>::empty());
        while bytes < 3
            invariant
                s == self@,
                text@ == s,
                len == s.len(),
                0 <= n <= s.len(),
                utf8_length(s.take(n)) == 3,
                i <= len,
                bytes == utf8_length(s.take(i as int)),
                i > 0 ==> utf8_length(s.take(i - 1)) < 3,
            decreases len - i,
        {
            if i >= len {
                proof {
                    lemma_utf8_prefix_grows(s, n, len as int);
                    assert(false);
                }
            }
            let c = text.get_char(i);
            let v = c as u32;
            let w: u32 = if v < 0x80 {
                1
            } else if v < 0x800 {
                2
            } else if v < 0x10000 {
                3
            } else {
                4
            };
            proof {
                assert(s.take(i + 1).drop_last() =~= s.take(i as int));
                assert(s.take(i + 1).last() == c);
            }
            bytes = bytes + w;
            i = i + 1;
        }
        proof {
            if n >= i {
                lemma_utf8_prefix_grows(s, i as int, n);
            } else {
                lemma_utf8_prefix_grows(s, n, i - 1);
            }
            assert(n == i);
        }
        text.substring_char(0, i)
    }

    /// The secret itself.
    pub fn value(&self) -> (r: &str)
        ensures
            r@ == self@,
    {
        self.value.as_str()
    }

    /// The secret as it may be shown: `sec***` for `secret_value`.
    pub fn masked(&self) -> (r: String)
        requires
            has_hint(self@),
        ensures
            r@ == masked(self@),
    {
        let mut s = self.hint().to_owned();
        s.append("***");
        s
    }

    /// The secret as a debug listing shows it: `Secret { value: sec*** }`.
    pub fn debug_text(&self) -> (r: String)
        requires
            has_hint(self@),
        ensures
            r@ == "Secret { value: "@ + masked(self@) + " }"@,
    {
        let mut s = "Secret { value: ".to_owned();
        s.append(self.masked().as_str());
        s.append(" }");
        s
    }
}

} // verus!
