//! Types shared across the API: colors, icons, property formats, layouts,
//! pagination and error bodies.
use vstd::prelude::*;

verus! {

/// Color for tags and icons
#[derive(Debug, Clone, Copy, PartialEq, Eq, Structural)]
pub enum Color {
    Grey,
    Yellow,
    Orange,
    Red,
    Pink,
    Purple,
    Blue,
    Ice,
    Teal,
    Lime,
}

/// The lower-case name the API uses for a color.
pub open spec fn color_name(c: Color) -> Seq<char> {
    match c {
        Color::Grey => "grey"@,
        Color::Yellow => "yellow"@,
        Color::Orange => "orange"@,
        Color::Red => "red"@,
        Color::Pink => "pink"@,
        Color::Purple => "purple"@,
        Color::Blue => "blue"@,
        Color::Ice => "ice"@,
        Color::Teal => "teal"@,
        Color::Lime => "lime"@,
    }
}

/// The color a lower-case name stands for.
pub open spec fn color_of_name(s: Seq<char>) -> Option<Color> {
    if s == "grey"@ {
        Some(Color::Grey)
    } else if s == "yellow"@ {
        Some(Color::Yellow)
    } else if s == "orange"@ {
        Some(Color::Orange)
    } else if s == "red"@ {
        Some(Color::Red)
    } else if s == "pink"@ {
        Some(Color::Pink)
    } else if s == "purple"@ {
        Some(Color::Purple)
    } else if s == "blue"@ {
        Some(Color::Blue)
    } else if s == "ice"@ {
        Some(Color::Ice)
    } else if s == "teal"@ {
        Some(Color::Teal)
    } else if s == "lime"@ {
        Some(Color::Lime)
    } else {
        None
    }
}

impl Color {
    /// The lower-case name the API uses for the color.
    pub fn api_name(&self) -> (s: &'static str)
        ensures
            s@ == color_name(*self),
    {
        match self {
            Color::Grey => "grey",
            Color::Yellow => "yellow",
            Color::Orange => "orange",
            Color::Red => "red",
            Color::Pink => "pink",
            Color::Purple => "purple",
            Color::Blue => "blue",
            Color::Ice => "ice",
            Color::Teal => "teal",
            Color::Lime => "lime",
        }
    }

    /// The name of the color as it is displayed: its variant name.
    pub fn display_name(&self) -> (s: &'static str)
        ensures
            s@ == match *self {
                Color::Grey => "Grey"@,
                Color::Yellow => "Yellow"@,
                Color::Orange => "Orange"@,
                Color::Red => "Red"@,
                Color::Pink => "Pink"@,
                Color::Purple => "Purple"@,
                Color::Blue => "Blue"@,
                Color::Ice => "Ice"@,
                Color::Teal => "Teal"@,
                Color::Lime => "Lime"@,
            },
    {
        match self {
            Color::Grey => "Grey",
            Color::Yellow => "Yellow",
            Color::Orange => "Orange",
            Color::Red => "Red",
            Color::Pink => "Pink",
            Color::Purple => "Purple",
            Color::Blue => "Blue",
            Color::Ice => "Ice",
            Color::Teal => "Teal",
            Color::Lime => "Lime",
        }
    }

    /// The color named by a lower-case name, if any.
    pub fn from_api_name(s: &str) -> (r: Option<Color>)
        ensures
            r == color_of_name(s@),
    {
        let t = crate::text::owned(s);
        if t == crate::text::owned("grey") {
            Some(Color::Grey)
        } else if t == crate::text::owned("yellow") {
            Some(Color::Yellow)
        } else if t == crate::text::owned("orange") {
            Some(Color::Orange)
        } else if t == crate::text::owned("red") {
            Some(Color::Red)
        } else if t == crate::text::owned("pink") {
            Some(Color::Pink)
        } else if t == crate::text::owned("purple") {
            Some(Color::Purple)
        } else if t == crate::text::owned("blue") {
            Some(Color::Blue)
        } else if t == crate::text::owned("ice") {
            Some(Color::Ice)
        } else if t == crate::text::owned("teal") {
            Some(Color::Teal)
        } else if t == crate::text::owned("lime") {
            Some(Color::Lime)
        } else {
            None
        }
    }
}

/// Generic API error response
#[derive(Debug, Clone, PartialEq)]
pub struct ApiErrorResponse {
    pub code: String,
    pub message: String,
    pub object: String,
    pub status: u32,
}

/// Pagination information
#[derive(Debug, Clone, Copy, PartialEq, Eq, Structural)]
pub struct Pagination {
    pub has_more: bool,
    pub limit: usize,
    pub offset: usize,
    pub total: usize,
}

/// Icon format type
#[derive(Debug, Clone, Copy, PartialEq, Eq, Structural)]
pub enum IconFormat {
    Emoji,
    File,
    Icon,
}

/// Icon enum that can be one of three types
#[derive(Debug, Clone, PartialEq)]
pub enum Icon {
    Emoji { emoji: String },
    File { file: String },
    Icon { color: Color, name: String },
}

impl Icon {
    /// The format tag the API writes for the icon.
    pub fn format(&self) -> (f: IconFormat)
        ensures
            f == match *self {
                Icon::Emoji { .. } => IconFormat::Emoji,
                Icon::File { .. } => IconFormat::File,
                Icon::Icon { .. } => IconFormat::Icon,
            },
    {
        match self {
            Icon::Emoji { .. } => IconFormat::Emoji,
            Icon::File { .. } => IconFormat::File,
            Icon::Icon { .. } => IconFormat::Icon,
        }
    }
}

/// Property information for types
#[derive(Debug, Clone, PartialEq)]
pub struct TypeProperty {
    pub format: Format,
    pub id: String,
    pub key: String,
    pub name: String,
    pub object: String,
}

#[derive(Debug, Clone, Copy, PartialEq, Eq, Structural)]
pub enum Format {
    Text,
    Number,
    Select,
    MultiSelect,
    Date,
    Files,
    Checkbox,
    Url,
    Email,
    Phone,
    Objects,
}

/// Type information
#[derive(Debug, Clone, PartialEq)]
pub struct Type {
    pub archived: bool,
    pub icon: Option<Icon>,
    pub id: String,
    pub key: String,
    pub layout: Layout,
    pub name: String,
    pub object: String,
    pub plural_name: String,
    pub properties: Vec<TypeProperty>,
}

#[derive(Debug, Clone, Copy, PartialEq, Eq, Structural)]
pub enum Layout {
    Basic,
    Profile,
    Action,
    Note,
    Bookmark,
    ObjectSet,
    Collection,
    Participant,
}

/// The lower-case name the API uses for a layout.
pub open spec fn layout_name(l: Layout) -> Seq<char> {
    match l {
        Layout::Basic => "basic"@,
        Layout::Profile => "profile"@,
        Layout::Action => "action"@,
        Layout::Note => "note"@,
        Layout::Bookmark => "bookmark"@,
        Layout::ObjectSet => "set"@,
        Layout::Collection => "collection"@,
        Layout::Participant => "participant"@,
    }
}

/// The layout a lower-case name stands for.
pub open spec fn layout_of_name(s: Seq<char>) -> Option<Layout> {
    if s == "basic"@ {
        Some(Layout::Basic)
    } else if s == "profile"@ {
        Some(Layout::Profile)
    } else if s == "action"@ {
        Some(Layout::Action)
    } else if s == "note"@ {
        Some(Layout::Note)
    } else if s == "bookmark"@ {
        Some(Layout::Bookmark)
    } else if s == "set"@ {
        Some(Layout::ObjectSet)
    } else if s == "collection"@ {
        Some(Layout::Collection)
    } else if s == "participant"@ {
        Some(Layout::Participant)
    } else {
        None
    }
}

impl Layout {
    /// The lower-case name the API uses for the layout.
    pub fn api_name(&self) -> (s: &'static str)
        ensures
            s@ == layout_name(*self),
    {
        match self {
            Layout::Basic => "basic",
            Layout::Profile => "profile",
            Layout::Action => "action",
            Layout::Note => "note",
            Layout::Bookmark => "bookmark",
            Layout::ObjectSet => "set",
            Layout::Collection => "collection",
            Layout::Participant => "participant",
        }
    }

    /// The layout named by a lower-case name, if any.
    pub fn from_api_name(s: &str) -> (r: Option<Layout>)
        ensures
            r == layout_of_name(s@),
    {
        let t = crate::text::owned(s);
        if t == crate::text::owned("basic") {
            Some(Layout::Basic)
        } else if t == crate::text::owned("profile") {
            Some(Layout::Profile)
        } else if t == crate::text::owned("action") {
            Some(Layout::Action)
        } else if t == crate::text::owned("note") {
            Some(Layout::Note)
        } else if t == crate::text::owned("bookmark") {
            Some(Layout::Bookmark)
        } else if t == crate::text::owned("set") {
            Some(Layout::ObjectSet)
        } else if t == crate::text::owned("collection") {
            Some(Layout::Collection)
        } else if t == crate::text::owned("participant") {
            Some(Layout::Participant)
        } else {
            None
        }
    }
}

/// Every color is named by its API name.
pub proof fn law_color_names_round_trip(c: Color)
    ensures
        color_of_name(color_name(c)) == Some(c),
{
    reveal_strlit("grey");
    reveal_strlit("yellow");
    reveal_strlit("orange");
    reveal_strlit("red");
    reveal_strlit("pink");
    reveal_strlit("purple");
    reveal_strlit("blue");
    reveal_strlit("ice");
    reveal_strlit("teal");
    reveal_strlit("lime");
    assert("grey"@[0] == 'g' && "grey"@[1] == 'r' && "grey"@.len() == 4);
    assert("yellow"@[0] == 'y' && "yellow"@[1] == 'e' && "yellow"@.len() == 6);
    assert("orange"@[0] == 'o' && "orange"@[1] == 'r' && "orange"@.len() == 6);
    assert("red"@[0] == 'r' && "red"@[1] == 'e' && "red"@.len() == 3);
    assert("pink"@[0] == 'p' && "pink"@[1] == 'i' && "pink"@.len() == 4);
    assert("purple"@[0] == 'p' && "purple"@[1] == 'u' && "purple"@.len() == 6);
    assert("blue"@[0] == 'b' && "blue"@[1] == 'l' && "blue"@.len() == 4);
    assert("ice"@[0] == 'i' && "ice"@[1] == 'c' && "ice"@.len() == 3);
    assert("teal"@[0] == 't' && "teal"@[1] == 'e' && "teal"@.len() == 4);
    assert("lime"@[0] == 'l' && "lime"@[1] == 'i' && "lime"@.len() == 4);
}

/// Every layout is named by its API name.
pub proof fn law_layout_names_round_trip(l: Layout)
    ensures
        layout_of_name(layout_name(l)) == Some(l),
{
    reveal_strlit("basic");
    reveal_strlit("profile");
    reveal_strlit("action");
    reveal_strlit("note");
    reveal_strlit("bookmark");
    reveal_strlit("set");
    reveal_strlit("collection");
    reveal_strlit("participant");
    assert("basic"@[0] == 'b' && "basic"@[1] == 'a' && "basic"@.len() == 5);
    assert("profile"@[0] == 'p' && "profile"@[1] == 'r' && "profile"@.len() == 7);
    assert("action"@[0] == 'a' && "action"@[1] == 'c' && "action"@.len() == 6);
    assert("note"@[0] == 'n' && "note"@[1] == 'o' && "note"@.len() == 4);
    assert("bookmark"@[0] == 'b' && "bookmark"@[1] == 'o' && "bookmark"@.len() == 8);
    assert("set"@[0] == 's' && "set"@[1] == 'e' && "set"@.len() == 3);
    assert("collection"@[0] == 'c' && "collection"@[1] == 'o' && "collection"@.len() == 10);
    assert("participant"@[0] == 'p' && "participant"@[1] == 'a' && "participant"@.len() == 11);
}

/// Every layout's name is lower-case ASCII, so it reads back as the layout
/// in any ASCII letter case.
pub proof fn law_layout_names_any_case(l: Layout)
    ensures
        crate::text::is_ascii_text(layout_name(l)),
        layout_of_name(crate::text::ascii_folded(layout_name(l))) == Some(l),
{
    law_layout_names_round_trip(l);
    let n = layout_name(l);
    assert forall|i: int| 0 <= i < n.len() implies ('a' <= #[trigger] n[i] && n[i] <= 'z') || n[i] == '_' by {
        reveal_strlit("basic");
        reveal_strlit("profile");
        reveal_strlit("action");
        reveal_strlit("note");
        reveal_strlit("bookmark");
        reveal_strlit("set");
        reveal_strlit("collection");
        reveal_strlit("participant");
    }
    crate::text::lemma_lower_ascii_unchanged(n);
}

/// Every color's name is lower-case ASCII, so it reads back as the color in
/// any ASCII letter case.
pub proof fn law_color_names_any_case(c: Color)
    ensures
        crate::text::is_ascii_text(color_name(c)),
        color_of_name(crate::text::ascii_folded(color_name(c))) == Some(c),
{
    law_color_names_round_trip(c);
    let n = color_name(c);
    assert forall|i: int| 0 <= i < n.len() implies ('a' <= #[trigger] n[i] && n[i] <= 'z') || n[i] == '_' by {
        reveal_strlit("grey");
        reveal_strlit("yellow");
        reveal_strlit("orange");
        reveal_strlit("red");
        reveal_strlit("pink");
        reveal_strlit("purple");
        reveal_strlit("blue");
        reveal_strlit("ice");
        reveal_strlit("teal");
        reveal_strlit("lime");
    }
    crate::text::lemma_lower_ascii_unchanged(n);
}

} // verus!
