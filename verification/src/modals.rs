use vstd::prelude::*;

verus! {

/// The longest title a text message form accepts, in characters.
pub const TITLE_MAX_LEN: usize = 128;

/// The form that collects a one-off text message.
pub struct TextMessageModal {
    pub title: String,
    pub content: String,
}

/// The form that collects the title and body of a stored text message.
pub struct TextMessageModifyModal {
    pub title: String,
    pub content: String,
}

/// Whether a title and a body satisfy the limits of the text message forms:
/// a title of 1 to 128 characters and a body that is not empty.
pub open spec fn form_accepts(title: Seq<char>, content: Seq<char>) -> bool {
    1 <= title.len() <= TITLE_MAX_LEN && 1 <= content.len()
}

impl TextMessageModal {
    pub open spec fn valid(&self) -> bool {
        form_accepts(self.title@, self.content@)
    }

    /// Checks the form's length limits.
    pub fn is_valid(&self) -> (ok: bool)
        ensures
            ok == self.valid(),
    {
        let t: usize = self.title.as_str().unicode_len();
        let c: usize = self.content.as_str().unicode_len();
        1 <= t && t <= TITLE_MAX_LEN && 1 <= c
    }
}

impl TextMessageModifyModal {
    pub open spec fn valid(&self) -> bool {
        form_accepts(self.title@, self.content@)
    }

    /// Checks the form's length limits.
    pub fn is_valid(&self) -> (ok: bool)
        ensures
            ok == self.valid(),
    {
        let t: usize = self.title.as_str().unicode_len();
        let c: usize = self.content.as_str().unicode_len();
        1 <= t && t <= TITLE_MAX_LEN && 1 <= c
    }
}

} // verus!
