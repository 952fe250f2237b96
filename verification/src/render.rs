//! What can go wrong while the graphics backend is brought up, and how it is
//! reported.

use vstd::prelude::*;
use vstd::string::*;

verus! {

/// Why the graphics backend could not be brought up.
#[derive(Debug)]
pub enum InitializationError {
    /// The Vulkan library could not be loaded; holds the loader's message.
    LibraryLoadError(String),
    /// The library lacks entry points; holds their names.
    LoadError(Vec<&'static str>),
    /// Vulkan answered with an error; holds the raw result code.
    VkError(i32),
}

/// The text that `ash` displays for the Vulkan result with raw code `code`.
pub uninterp spec fn vk_result_text(code: i32) -> Seq<char>;

/// Formats `ash::vk::Result::from_raw(code)` with the `Display` impl that
/// `ash` gives it. Verus takes on trust that the text is `vk_result_text` of
/// `code`, that is, that it depends on nothing but the code; which text
/// belongs to which code is left to `ash`.
#[verifier::external_body]
fn describe_vk_result(code: i32) -> (text: String)
    ensures
        text@ == vk_result_text(code),
{
    format!("{}", ash::vk::Result::from_raw(code))
}

/// What stands between two names in the message of a `LoadError`.
pub const NAME_SEPARATOR: &'static str = "; ";

/// `parts` written one after another, with `separator` between neighbours.
pub open spec fn joined(parts: Seq<Seq<char>>, separator: Seq<char>) -> Seq<char>
    decreases parts.len(),
{
    if parts.len() == 0 {
        Seq::empty()
    } else if parts.len() == 1 {
        parts[0]
    } else {
        joined(parts.drop_last(), separator) + separator + parts.last()
    }
}

/// The texts of `names`, in order.
pub open spec fn texts_of(names: Seq<&'static str>) -> Seq<Seq<char>> {
    names.map_values(|name: &'static str| name@)
}

/// `names` written one after another, with `NAME_SEPARATOR` between
/// neighbours.
fn join_names(names: &Vec<&'static str>) -> (text: String)
    ensures
        text@ == joined(texts_of(names@), NAME_SEPARATOR@),
{
    let mut text = String::new();
    let mut i: usize = 0;
    while i < names.len()
        invariant
            i <= names.len(),
            text@ == joined(texts_of(names@).take(i as int), NAME_SEPARATOR@),
        decreases names.len() - i,
    {
        proof {
            // One more name extends what has been joined so far by that name.
            let before = texts_of(names@).take(i as int);
            let after = texts_of(names@).take(i + 1);
            assert(after.drop_last() == before);
            assert(after.last() == names@[i as int]@);
        }
        if i > 0 {
            text.append(NAME_SEPARATOR);
        }
        text.append(names[i]);
        i += 1;
    }
    assert(texts_of(names@).take(names.len() as int) == texts_of(names@));
    text
}

impl InitializationError {
    /// The text of the message that describes this error.
    pub open spec fn message_text(&self) -> Seq<char> {
        match self {
            InitializationError::LibraryLoadError(msg) => msg@,
            InitializationError::LoadError(names) => joined(texts_of(names@), NAME_SEPARATOR@),
            InitializationError::VkError(code) => vk_result_text(*code),
        }
    }

    /// Describes this error for a reader: the loader's message, the missing
    /// names separated by `NAME_SEPARATOR`, or what `ash` says of the Vulkan
    /// result.
    pub fn message(&self) -> (text: String)
        ensures
            text@ == self.message_text(),
    {
        match self {
            InitializationError::LibraryLoadError(msg) => msg.clone(),
            InitializationError::LoadError(names) => join_names(names),
            InitializationError::VkError(code) => describe_vk_result(*code),
        }
    }
}

} // verus!
