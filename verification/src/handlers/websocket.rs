use vstd::prelude::*;

use crate::error::AppError;
use crate::ids::{parse_uuid, uuid_parse};
use crate::middleware::auth::token_rejected;
use crate::models::{shows_message, Message, MessageResponse};
use crate::services::jwt::Claims;
use crate::services::stego::{
    sealed_with_some_nonce, unseal, SteganographyService, Unsealed, NONCE_LENGTH, TAG_LENGTH,
};

verus! {

/// The query of a chat connection: the access token.
pub struct WsQuery {
    pub token: String,
}

/// A chat session seals a text of `n` bytes: its ciphertext stays under
/// 2^32 - 1 blocks of 64 bytes, and its base64 fits in memory.
pub open spec fn sealable(n: nat) -> bool {
    n / 64 < 0xffff_ffff && (n + NONCE_LENGTH + TAG_LENGTH + 2) / 3 * 4 <= isize::MAX
}

/// A text has at least as many UTF-8 bytes as characters.
proof fn lemma_bytes_at_least_chars(s: Seq<char>)
    ensures
        vstd::utf8::encode_utf8(s).len() >= s.len(),
    decreases s.len(),
{
    if s.len() > 0 {
        lemma_bytes_at_least_chars(s.drop_first());
    }
}

/// A message to store for the connected user: its content is sealed.
pub struct NewMessage {
    pub user_id: u128,
    pub content: String,
}

/// What a chat session stores for a text `content` sent by the user whose
/// token names `user`, sealing under `key`: where the identifier reads and
/// the text can be sealed, the text sealed under that user, so that it opens
/// to the text again (a longer sealing, never the text as sent); nothing
/// otherwise.
pub open spec fn stores_sealed(user: Seq<char>, key: Seq<u8>, content: Seq<char>, r: Option<NewMessage>) -> bool {
    let n = vstd::utf8::encode_utf8(content).len();
    match uuid_parse(user) {
        Some(u) => if sealable(n) {
            r matches Some(m) && m.user_id == u
                && unseal(key, m.content@) == Unsealed::Opened(content)
                && sealed_with_some_nonce(key, content, m.content@)
                && m.content@.len() == (n + NONCE_LENGTH + TAG_LENGTH + 2) / 3 * 4
                && m.content@.len() > content.len()
                && m.content@ != content
        } else {
            r is None
        },
        None => r is None,
    }
}

/// Every text a user sends over a chat connection whose token names a
/// readable identifier is stored, and so broadcast, under that user, sealed so
/// that it opens to the text, whatever its length, as long as its `n` UTF-8
/// bytes keep the cipher's block counter in range (`n / 64 < 2^32 - 1`) and
/// the base64 of nonce, ciphertext and tag fits in memory
/// (`(n + 30) / 3 * 4 <= isize::MAX`). A connection whose identifier does not
/// read stores nothing.
pub proof fn law_sent_text_is_stored(user: Seq<char>, key: Seq<u8>, content: Seq<char>, r: Option<NewMessage>)
    requires
        stores_sealed(user, key, content, r),
    ensures
        uuid_parse(user) matches Some(u) ==> (vstd::utf8::encode_utf8(content).len() / 64 < 0xffff_ffff
            && (vstd::utf8::encode_utf8(content).len() + 30) / 3 * 4 <= isize::MAX ==> (r matches Some(m)
            && m.user_id == u && unseal(key, m.content@) == Unsealed::Opened(content))),
        uuid_parse(user) is None ==> r is None,
{
}

/// A chat connection of one user: who they are, as their token says.
pub struct ChatSession {
    user_id: String,
    username: String,
}

/// Admits a chat connection whose token validated to `claims`, or refuses it
/// with the validator's reason.
pub fn ws_handler(validated: Result<Claims, String>) -> (r: Result<ChatSession, AppError>)
    ensures
        validated matches Ok(c) ==> (r matches Ok(s) && s.user_text() == c.sub@ && s.name() == c.username@),
        validated matches Err(reason) ==> (r matches Err(e) && e.is_validation_with("Invalid token: "@ + reason@)),
{
    match validated {
        Ok(claims) => Ok(ChatSession::new(&claims)),
        Err(reason) => Err(token_rejected(reason.as_str())),
    }
}

impl ChatSession {
    /// The user's identifier, as written in the token.
    pub closed spec fn user_text(&self) -> Seq<char> {
        self.user_id@
    }

    /// The user's name.
    pub closed spec fn name(&self) -> Seq<char> {
        self.username@
    }

    pub fn new(claims: &Claims) -> (r: Self)
        ensures
            r.user_text() == claims.sub@,
            r.name() == claims.username@,
    {
        ChatSession { user_id: claims.sub.clone(), username: claims.username.clone() }
    }

    /// The user's identifier, as written in the token.
    pub fn user_id(&self) -> (r: &str)
        ensures
            r@ == self.user_text(),
    {
        self.user_id.as_str()
    }

    /// What to store for a text the user sent: the text sealed with the
    /// server's message key, under the user's identifier; nothing where the
    /// identifier does not read or the text is too long to seal. The store
    /// thus never holds the text as sent, only a longer sealing that opens
    /// to it.
    pub fn on_text(&self, service: &SteganographyService, content: &str) -> (r: Option<NewMessage>)
        ensures
            stores_sealed(self.user_text(), service.key(), content@, r),
    {
        let u = match parse_uuid(self.user_id.as_str()) {
            Some(u) => u,
            None => return None,
        };
        let n = content.as_bytes().len();
        if !(n / 64 < 0xffff_ffff && n / 3 + 10 <= (isize::MAX as usize) / 4) {
            return None;
        }
        proof {
            lemma_bytes_at_least_chars(content@);
        }
        match service.encode(content) {
            Ok(sealed) => Some(NewMessage { user_id: u, content: sealed }),
            Err(_) => None,
        }
    }

    /// What to broadcast once a message is stored: it, under the user's name.
    pub fn on_stored(&self, message: &Message) -> (r: MessageResponse)
        ensures
            shows_message(r, *message, Some(self.name())),
    {
        message.to_response(Some(self.username.clone()))
    }
}

} // verus!
