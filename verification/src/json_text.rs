//! The text of a custom request as the controller reads it from a file:
//! JSON in which comments are allowed.
use vstd::prelude::*;

verus! {

/// The text with every comment (`/* ... */`, `// ...` and `# ...`) turned
/// into blanks, or `None` where the text ends inside a string or a block
/// comment, or a `/` starts no comment.
pub uninterp spec fn comments_blanked(text: Seq<u8>) -> Option<Seq<u8>>;

/// Reads `json_comments::StripComments` over `text` to its end
/// (`Read::read_to_end`). The adapter replaces each byte in place, so what
/// it yields is as long as the text; it fails at the end of a text left
/// inside a string or a block comment, and on a `/` that starts no comment.
/// Which bytes it blanks is not stated: that is the adapter's own grammar.
#[verifier::external_body]
fn blank_comments(text: &[u8]) -> (r: Option<Vec<u8>>)
    ensures
        r matches Some(v) ==> comments_blanked(text@) == Some(v@) && v@.len() == text@.len(),
        r is None ==> comments_blanked(text@) is None,
{
    let mut out = Vec::new();
    std::io::Read::read_to_end(&mut json_comments::StripComments::new(text), &mut out).ok().map(|_| out)
}

/// The JSON text of a custom request's actions with its comments blanked
/// out, ready for a JSON parser; `None` where the text is not well formed
/// for comment stripping.
pub fn strip_comments(text: &[u8]) -> (r: Option<Vec<u8>>)
    ensures
        r matches Some(v) ==> comments_blanked(text@) == Some(v@) && v@.len() == text@.len(),
        r is None ==> comments_blanked(text@) is None,
{
    blank_comments(text)
}

} // verus!
