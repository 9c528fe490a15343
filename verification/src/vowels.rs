//! Small string utilities on borrowed arguments.

use vstd::prelude::*;
use vstd::string::StrSliceExecFns;
use vstd::string::StringExecFns;

verus! {

/// The five ASCII vowels.
pub open spec fn is_vowel(c: char) -> bool {
    c == 'a' || c == 'e' || c == 'i' || c == 'o' || c == 'u'
}

/// Whether the word contains three vowels in a row.
pub open spec fn has_three_consecutive_vowels(s: Seq<char>) -> bool {
    exists|i: int|
        0 <= i && i + 2 < s.len() && is_vowel(#[trigger] s[i]) && is_vowel(s[i + 1]) && is_vowel(
            s[i + 2],
        )
}

/// Reports whether the word holds three consecutive vowels.
pub fn three_vowels(word: &str) -> (r: bool)
    ensures
        r == has_three_consecutive_vowels(word@),
{
    let n = word.unicode_len();
    let mut vowel_count: usize = 0;
    let mut idx: usize = 0;
    while idx < n
        invariant
            n == word@.len(),
            idx <= n,
            vowel_count <= idx,
            vowel_count <= 2,
            forall|k: int| idx - vowel_count <= k < idx ==> is_vowel(#[trigger] word@[k]),
            vowel_count < idx ==> !is_vowel(word@[idx - vowel_count - 1]),
            forall|i: int|
                0 <= i && i + 2 < idx ==> !(is_vowel(#[trigger] word@[i]) && is_vowel(
                    word@[i + 1],
                ) && is_vowel(word@[i + 2])),
        decreases n - idx,
    {
        let c = word.get_char(idx);
        match c {
            'a' | 'e' | 'i' | 'o' | 'u' => {
                vowel_count += 1;
                if vowel_count >= 3 {
                    proof {
                        assert(is_vowel(word@[idx - 2]));
                        assert(is_vowel(word@[idx - 1]));
                        assert(is_vowel(word@[idx as int]));
                    }
                    return true;
                }
            },
            _ => {
                vowel_count = 0;
            },
        }
        idx += 1;
    }
    false
}

/// Builds the greeting for a name.
pub fn say_hello(name: &str) -> (r: String)
    ensures
        r@ == "Hello "@ + name@ + "!"@,
{
    let mut result = String::from_str("Hello ");
    result.append(name);
    result.append("!");
    result
}

} // verus!
