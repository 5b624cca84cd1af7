//! Small string utilities: greetings, in-place growth, word splitting,
//! picking the longer of two slices, and reversal.

use vstd::prelude::*;
use vstd::string::StrSliceExecFns;
use vstd::string::StringExecFns;

verus! {

/// A greeting, built by converting a borrowed literal to an owned string.
pub fn greet1() -> (r: String)
    ensures
        r@ == "hello world!"@,
{
    "hello world!".to_owned()
}

/// A greeting, as a borrowed slice with static lifetime.
pub fn greet2() -> (r: &'static str)
    ensures
        r@ == "hello world!"@,
{
    "hello world!"
}

/// A greeting, constructed as an owned string from a slice.
pub fn greet3() -> (r: String)
    ensures
        r@ == "hello world!"@,
{
    String::from_str("hello world!")
}

/// Grows a borrowed string in place by appending ", world".
pub fn change(some_string: &mut String)
    ensures
        final(some_string)@ == old(some_string)@ + ", world"@,
{
    some_string.append(", world");
}

/// Where the first word of `s` ends: the index of the first space, or the
/// length of `s` when it has no space.
pub open spec fn word_end(s: Seq<char>) -> int
    decreases s.len(),
{
    if s.len() == 0 {
        0
    } else if s[0] == ' ' {
        0
    } else {
        1 + word_end(s.drop_first())
    }
}

/// `word_end` is the position of the first space: everything before it is
/// not a space, and it either sits on a space or at the end.
pub proof fn lemma_word_end(s: Seq<char>)
    ensures
        0 <= word_end(s) <= s.len(),
        forall|k: int| 0 <= k < word_end(s) ==> s[k] != ' ',
        word_end(s) < s.len() ==> s[word_end(s)] == ' ',
    decreases s.len(),
{
    if s.len() == 0 {
    } else if s[0] == ' ' {
    } else {
        lemma_word_end(s.drop_first());
        assert forall|k: int| 0 <= k < word_end(s) implies s[k] != ' ' by {
            if k > 0 {
                assert(s.drop_first()[k - 1] != ' ');
            }
        }
    }
}

/// The first word of `s`: the prefix up to, and not including, the first
/// space — or all of `s` when it contains no space.
pub fn first_word(s: &String) -> (w: &str)
    ensures
        w@ == s@.subrange(0, word_end(s@)),
{
    let len = s.as_str().unicode_len();
    let mut i: usize = 0;
    while i < len && s.as_str().get_char(i) != ' '
        invariant
            0 <= i <= len,
            len == s@.len(),
            forall|k: int| 0 <= k < i ==> s@[k] != ' ',
        decreases len - i,
    {
        i = i + 1;
    }
    proof {
        lemma_word_end(s@);
        if word_end(s@) < i {
            assert(s@[word_end(s@)] != ' ');
        }
        if i < word_end(s@) {
            assert(s@[i as int] != ' ');
        }
        assert(i == word_end(s@));
    }
    s.as_str().substring_char(0, i)
}

/// The longer of two string slices, measured in characters; ties go to the
/// first.
pub fn longest<'a>(a: &'a str, b: &'a str) -> (r: &'a str)
    ensures
        r@ == (if a@.len() >= b@.len() {
            a@
        } else {
            b@
        }),
{
    if a.unicode_len() >= b.unicode_len() {
        a
    } else {
        b
    }
}

/// An excerpt borrowed from a longer text.
pub struct ImportantExcerpt<'a> {
    pub part: &'a str,
}

impl<'a> ImportantExcerpt<'a> {
    /// Hands the excerpt back; the announcement is the caller's business.
    pub fn announce_and_return_part(&self, announcement: &str) -> (r: &str)
        ensures
            r@ == self.part@,
    {
        let _ = announcement;
        self.part
    }
}

/// The characters of `word`, in reverse order, gathered one character at a
/// time from the back.
pub fn reverse(word: &str) -> (r: String)
    ensures
        r@ == word@.reverse(),
{
    let len = word.unicode_len();
    let mut r = String::new();
    let mut i: usize = len;
    while i > 0
        invariant
            0 <= i <= len,
            len == word@.len(),
            r@ == word@.subrange(i as int, len as int).reverse(),
        decreases i,
    {
        i = i - 1;
        let c = word.substring_char(i, i + 1);
        r.append(c);
        proof {
            assert(r@ =~= word@.subrange(i as int, len as int).reverse());
        }
    }
    proof {
        assert(word@.subrange(0, len as int) =~= word@);
    }
    r
}

/// The characters of `word`, in reverse order, pushed onto an accumulator
/// from the back.
pub fn reverse2(word: &str) -> (r: String)
    ensures
        r@ == word@.reverse(),
{
    let len = word.unicode_len();
    let mut result = String::new();
    let mut remaining: usize = len;
    while remaining > 0
        invariant
            0 <= remaining <= len,
            len == word@.len(),
            result@ == word@.subrange(remaining as int, len as int).reverse(),
        decreases remaining,
    {
        remaining = remaining - 1;
        result.append(word.substring_char(remaining, remaining + 1));
        proof {
            assert(result@ =~= word@.subrange(remaining as int, len as int).reverse());
        }
    }
    proof {
        assert(word@.subrange(0, len as int) =~= word@);
    }
    result
}

} // verus!
