//! The persisted copy of the session token.
use vstd::prelude::*;
use vstd::string::*;

verus! {

/// No usable session token is persisted.
#[derive(Debug, Clone, Copy, PartialEq, Eq, Structural)]
pub struct NotFound;

/// Interprets what the backing storage holds (empty when it is absent or
/// unreadable): a non-empty text is the token.
pub fn read_session(stored: String) -> (r: Result<String, NotFound>)
    ensures
        stored@.len() > 0 ==> r == Ok::<String, NotFound>(stored),
        stored@.len() == 0 ==> r == Err::<String, NotFound>(NotFound),
{
    if stored.unicode_len() > 0 {
        Ok(stored)
    } else {
        Err(NotFound)
    }
}

/// What a step of the client asks of the session storage.
#[derive(Debug)]
pub enum StoreAction {
    /// Leave the storage as it is.
    Keep,
    /// Overwrite the storage with this token.
    Write(String),
    /// Remove the storage, if it exists.
    Remove,
}

/// A session storage held in memory: the content of its backing location,
/// or `None` where that location does not exist.
pub struct SessionStore {
    stored: Option<String>,
}

impl View for SessionStore {
    type V = Option<Seq<char>>;

    closed spec fn view(&self) -> Option<Seq<char>> {
        match self.stored {
            Some(s) => Some(s@),
            None => None,
        }
    }
}

/// What reading a storage whose content is `stored` yields.
pub open spec fn read_spec(stored: Option<Seq<char>>) -> Option<Seq<char>> {
    match stored {
        Some(s) => if s.len() > 0 {
            Some(s)
        } else {
            None
        },
        None => None,
    }
}

impl SessionStore {
    /// A storage whose backing location does not exist yet.
    pub fn new() -> (r: SessionStore)
        ensures
            r@ is None,
    {
        SessionStore { stored: None }
    }

    /// The persisted token, or `NotFound` where the storage is absent or
    /// empty.
    pub fn read(&self) -> (r: Result<String, NotFound>)
        ensures
            r matches Ok(t) ==> read_spec(self@) == Some(t@),
            r is Err <==> read_spec(self@) is None,
    {
        match &self.stored {
            Some(s) => read_session(s.clone()),
            None => Err(NotFound),
        }
    }

    /// Creates the storage if it is absent and overwrites it with `token`.
    pub fn write(&mut self, token: &str)
        ensures
            final(self)@ == Some(token@),
    {
        self.stored = Some(String::from_str(token));
    }

    /// Removes the storage; nothing happens where it does not exist.
    pub fn invalidate(&mut self)
        ensures
            final(self)@ is None,
    {
        self.stored = None;
    }

    /// Carries out what a step of the client asked of the storage.
    pub fn apply(&mut self, action: &StoreAction)
        ensures
            action is Keep ==> final(self)@ == old(self)@,
            action matches StoreAction::Write(t) ==> final(self)@ == Some(t@),
            action is Remove ==> final(self)@ is None,
    {
        match action {
            StoreAction::Keep => {},
            StoreAction::Write(t) => self.write(t.as_str()),
            StoreAction::Remove => self.invalidate(),
        }
    }
}

/// Writing a non-empty token and then reading gives that token back.
pub proof fn lemma_write_then_read(token: Seq<char>)
    requires
        token.len() > 0,
    ensures
        read_spec(Some(token)) == Some(token),
{
}

/// Reading a storage whose backing location does not exist, as `invalidate`
/// leaves it, finds nothing.
pub proof fn lemma_invalidate_then_read()
    ensures
        read_spec(None) is None,
{
}

} // verus!
