use vstd::prelude::*;

verus! {

/// The colour of the bar beside an embed.
#[derive(Debug, Clone, Copy, PartialEq, Eq, Structural)]
pub enum EmbedColor {
    Teal,
    DarkPurple,
}

/// A titled field of an embed, shown beside others where `inline` holds.
#[derive(Debug)]
pub struct EmbedField {
    pub name: String,
    pub value: String,
    pub inline: bool,
}

/// The content of an embed that the bot posts (its author, the bot
/// itself, is added where it is sent).
#[derive(Debug)]
pub struct EmbedContent {
    pub title: String,
    pub description: String,
    pub color: EmbedColor,
    pub thumbnail: Option<String>,
    pub fields: Vec<EmbedField>,
}

/// A field as text.
#[verifier::ext_equal]
pub struct FieldView {
    pub name: Seq<char>,
    pub value: Seq<char>,
    pub inline: bool,
}

/// An embed as text.
#[verifier::ext_equal]
pub struct EmbedView {
    pub title: Seq<char>,
    pub description: Seq<char>,
    pub color: EmbedColor,
    pub thumbnail: Option<Seq<char>>,
    pub fields: Seq<FieldView>,
}

pub open spec fn field_view(name: Seq<char>, value: Seq<char>, inline: bool) -> FieldView {
    FieldView { name, value, inline }
}

impl View for EmbedField {
    type V = FieldView;

    open spec fn view(&self) -> FieldView {
        FieldView { name: self.name@, value: self.value@, inline: self.inline }
    }
}

pub open spec fn option_view(s: Option<String>) -> Option<Seq<char>> {
    match s {
        Some(t) => Some(t@),
        None => None,
    }
}

impl View for EmbedContent {
    type V = EmbedView;

    open spec fn view(&self) -> EmbedView {
        EmbedView {
            title: self.title@,
            description: self.description@,
            color: self.color,
            thumbnail: option_view(self.thumbnail),
            fields: self.fields@.map_values(|f: EmbedField| f@),
        }
    }
}

pub fn embed_field(name: String, value: String, inline: bool) -> (r: EmbedField)
    ensures
        r.name == name,
        r.value == value,
        r.inline == inline,
{
    EmbedField { name, value, inline }
}

/// The avatar URL shown beside the bot's name, empty where the bot has
/// no avatar.
pub fn avatar_or_empty(avatar_url: Option<String>) -> (r: String)
    ensures
        match avatar_url {
            Some(url) => r == url,
            None => r@ == Seq::<char>::empty(),
        },
{
    match avatar_url {
        Some(url) => url,
        None => String::new(),
    }
}

} // verus!
