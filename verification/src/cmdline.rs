//! Startup values given on the command line, each as `name=value`.

use crate::template::chars_of;
use vstd::prelude::*;

verus! {

/// An argument that holds no `=` and so names no value.
#[derive(Clone, Debug, PartialEq, Eq)]
pub struct KeyValError {
    /// The argument as it was given.
    pub input: String,
}

impl KeyValError {
    /// The text shown to the user: it quotes the argument.
    pub fn message(&self) -> (text: String)
        ensures
            text@ == "invalid KEY=value: no `=` found in `"@ + self.input@ + "`"@,
    {
        let mut text = String::from_str("invalid KEY=value: no `=` found in `");
        text.append(self.input.as_str());
        text.append("`");
        text
    }
}

/// Splits `s` at its first `=` into a name and a value. The name is what stands
/// before that `=`, the value all that follows it, further `=` included. An
/// argument without `=` is refused.
pub fn parse_key_val(s: &str) -> (r: Result<(String, String), KeyValError>)
    ensures
        match r {
            Ok((key, value)) => s@ == key@ + seq!['='] + value@ && !key@.contains('='),
            Err(e) => !s@.contains('=') && e.input@ == s@,
        },
{
    let chars = chars_of(s);
    let n = chars.len();
    let mut pos: usize = 0;
    while pos < n && chars[pos] != '='
        invariant
            pos <= n,
            n == chars.len(),
            forall|k: int| 0 <= k < pos ==> chars@[k] != '=',
        decreases n - pos,
    {
        pos = pos + 1;
    }
    if pos < n {
        let key = String::from_str(s.substring_char(0, pos));
        let value = String::from_str(s.substring_char(pos + 1, n));
        Ok((key, value))
    } else {
        Err(KeyValError { input: String::from_str(s) })
    }
}

} // verus!
