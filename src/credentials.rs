use vstd::prelude::*;

use crate::text::{contains, join3};

verus! {

/// Opening of the credentials document, up to the entry that holds the secret.
pub const DOC_HEAD: &'static str = "{\n  \"serverUrl\": \"https://www.overleaf.com\",\n  \"type\": \"cookie\",\n  ";

/// Key of the entry that holds the secret, with the quote that opens its value.
pub const COOKIE_KEY: &'static str = "\"cookie\": \"";

/// Quote that closes the secret's value.
pub const COOKIE_CLOSE: &'static str = "\"";

/// End of the credentials document.
pub const DOC_TAIL: &'static str = "\n}";

/// The entry of the credentials document that carries `secret`.
pub open spec fn cookie_entry(secret: Seq<char>) -> Seq<char> {
    COOKIE_KEY@ + secret + COOKIE_CLOSE@
}

/// The credentials document saved for `secret`. The secret is written as it
/// is: a quote or a backslash inside it is not escaped.
pub open spec fn credentials_doc(secret: Seq<char>) -> Seq<char> {
    DOC_HEAD@ + cookie_entry(secret) + DOC_TAIL@
}

/// Builds the credentials document for a session cookie.
pub fn credentials_json(secret: &str) -> (r: String)
    ensures
        r@ == credentials_doc(secret@),
{
    let entry = join3(COOKIE_KEY, secret, COOKIE_CLOSE);
    let r = join3(DOC_HEAD, entry.as_str(), DOC_TAIL);
    assert(r@ =~= credentials_doc(secret@));
    r
}

/// The saved document holds the cookie entry, with the secret unchanged
/// between its quotes.
pub proof fn lemma_cookie_recorded(secret: Seq<char>)
    ensures
        contains(credentials_doc(secret), cookie_entry(secret)),
{
    let doc = credentials_doc(secret);
    let start = DOC_HEAD@.len() as int;
    let entry = cookie_entry(secret);
    assert(doc.subrange(start, start + entry.len()) =~= entry);
}

} // verus!
