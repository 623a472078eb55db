use vstd::prelude::*;

use crate::text::{is_white_space, lemma_trim_shape, trim, trim_chars};

verus! {

/// Whether an answer to the "Overwrite? [y/N]" question accepts: after trimming white
/// space, the answer starts with `y` or `Y`.
pub open spec fn spec_confirms_overwrite(input: Seq<char>) -> bool {
    let answer = trim_chars(input);
    answer.len() > 0 && (answer[0] == 'y' || answer[0] == 'Y')
}

/// Reads the answer to the question whether an existing configuration file may be
/// overwritten.
pub fn confirms_overwrite(input: &str) -> (b: bool)
    ensures
        b == spec_confirms_overwrite(input@),
{
    let answer = trim(input);
    if answer.unicode_len() == 0 {
        false
    } else {
        let c = answer.get_char(0);
        c == 'y' || c == 'Y'
    }
}

/// The shell line that exports `key` as the environment variable `env_var`.
pub open spec fn spec_export_line(env_var: Seq<char>, key: Seq<char>) -> Seq<char> {
    "export "@ + env_var + "="@ + key
}

/// The export line for an API key typed in answer to the setup prompt: none when the
/// answer is blank, else the line for the trimmed answer.
pub fn api_key_export_line(env_var: &str, input: &str) -> (r: Option<String>)
    ensures
        r is None <==> trim_chars(input@).len() == 0,
        r matches Some(line) ==> line@ == spec_export_line(env_var@, trim_chars(input@)),
{
    let key = trim(input);
    if key.unicode_len() == 0 {
        None
    } else {
        let mut line = String::from_str("export ");
        line.append(env_var);
        line.append("=");
        line.append(key);
        Some(line)
    }
}

/// An answer accepts exactly when its first character that is not white space is `y`
/// or `Y`.
pub proof fn lemma_confirms_first_visible_char(input: Seq<char>)
    ensures
        spec_confirms_overwrite(input) <==> exists|k: int|
            0 <= k < input.len() && (input[k] == 'y' || input[k] == 'Y') && forall|j: int|
                0 <= j < k ==> is_white_space(#[trigger] input[j]),
{
    let (a, b) = lemma_trim_shape(input);
    if spec_confirms_overwrite(input) {
        assert(trim_chars(input)[0] == input[a]);
        assert(forall|j: int| 0 <= j < a ==> is_white_space(#[trigger] input[j]));
    }
    if exists|k: int|
        0 <= k < input.len() && (input[k] == 'y' || input[k] == 'Y') && forall|j: int|
            0 <= j < k ==> is_white_space(#[trigger] input[j]) {
        let k = choose|k: int|
            0 <= k < input.len() && (input[k] == 'y' || input[k] == 'Y') && forall|j: int|
                0 <= j < k ==> is_white_space(#[trigger] input[j]);
        assert(!is_white_space(input[k]));
        if a < k {
            assert(is_white_space(input[a]));
        }
        if k < a {
            assert(is_white_space(input[k]));
        }
        assert(a == k);
        assert(a < b) by {
            if a == b {
                assert(is_white_space(input[k]));
            }
        }
        assert(trim_chars(input)[0] == input[a]);
    }
}

/// The setup prompt skips an answer exactly when it is all white space; otherwise the
/// key in the exported line is the answer without its surrounding white space, which
/// neither starts nor ends with white space.
pub proof fn lemma_api_key_answer(input: Seq<char>)
    ensures
        trim_chars(input).len() == 0 <==> forall|k: int|
            0 <= k < input.len() ==> is_white_space(#[trigger] input[k]),
        trim_chars(input).len() > 0 ==> !is_white_space(trim_chars(input)[0])
            && !is_white_space(trim_chars(input).last()),
        exists|a: int, b: int|
            0 <= a <= b <= input.len() && trim_chars(input) == input.subrange(a, b),
{
    let (a, b) = lemma_trim_shape(input);
    if trim_chars(input).len() > 0 {
        assert(trim_chars(input)[0] == input[a]);
        assert(trim_chars(input).last() == input[b - 1]);
    }
    assert(0 <= a <= b <= input.len() && trim_chars(input) == input.subrange(a, b));
}

} // verus!
