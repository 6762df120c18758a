//! A plain model of the reply embeds the bot sends: an error/normal flag,
//! an optional title and description, and name/value fields. The chat
//! client's own embed value is built from this model outside the library.

use vstd::prelude::*;

verus! {

/// One name/value field of an embed.
#[derive(Clone, Debug, PartialEq, Eq)]
pub struct EmbedField {
    pub name: String,
    pub value: String,
    pub inline: bool,
}

impl EmbedField {
    /// A non-inline field with the given name and value.
    pub fn new(name: &str, value: &str) -> (f: EmbedField)
        ensures
            f.name@ == name@,
            f.value@ == value@,
            !f.inline,
    {
        EmbedField { name: String::from_str(name), value: String::from_str(value), inline: false }
    }
}

/// A finished embed: what the bot replies with.
#[derive(Clone, Debug)]
pub struct Embed {
    /// Rendered in the error color rather than the usual one.
    pub error: bool,
    pub title: Option<String>,
    pub description: Option<String>,
    pub fields: Vec<EmbedField>,
}

/// Builds an [`Embed`] step by step.
#[derive(Clone, Debug)]
pub struct EmbedBuilder {
    pub embed: Embed,
}

/// The embed `e` is a plain reply: the given flavor, title and
/// description, and no fields.
pub open spec fn is_reply(e: Embed, error: bool, title: Seq<char>, description: Seq<char>) -> bool {
    &&& e.error == error
    &&& e.title.is_some()
    &&& e.title.unwrap()@ == title
    &&& e.description.is_some()
    &&& e.description.unwrap()@ == description
    &&& e.fields@.len() == 0
}

impl EmbedBuilder {
    /// Starts a normal (non-error) embed.
    pub fn new() -> (b: EmbedBuilder)
        ensures
            !b.embed.error,
            b.embed.title.is_none(),
            b.embed.description.is_none(),
            b.embed.fields@.len() == 0,
    {
        Self::default()
    }

    /// Starts an embed rendered in the error color.
    pub fn error() -> (b: EmbedBuilder)
        ensures
            b.embed.error,
            b.embed.title.is_none(),
            b.embed.description.is_none(),
            b.embed.fields@.len() == 0,
    {
        EmbedBuilder {
            embed: Embed { error: true, title: None, description: None, fields: Vec::new() },
        }
    }

    /// Sets the title.
    pub fn title(self, title: &str) -> (b: EmbedBuilder)
        ensures
            b.embed.error == self.embed.error,
            b.embed.title.is_some() && b.embed.title.unwrap()@ == title@,
            b.embed.description == self.embed.description,
            b.embed.fields == self.embed.fields,
    {
        let EmbedBuilder { embed } = self;
        EmbedBuilder { embed: Embed { title: Some(String::from_str(title)), ..embed } }
    }

    /// Sets the description.
    pub fn description(self, description: String) -> (b: EmbedBuilder)
        ensures
            b.embed.error == self.embed.error,
            b.embed.title == self.embed.title,
            b.embed.description.is_some() && b.embed.description.unwrap()@ == description@,
            b.embed.fields == self.embed.fields,
    {
        let EmbedBuilder { embed } = self;
        EmbedBuilder { embed: Embed { description: Some(description), ..embed } }
    }

    /// Appends fields.
    pub fn fields(self, fields: Vec<EmbedField>) -> (b: EmbedBuilder)
        ensures
            b.embed.error == self.embed.error,
            b.embed.title == self.embed.title,
            b.embed.description == self.embed.description,
            b.embed.fields@ == self.embed.fields@ + fields@,
    {
        let EmbedBuilder { mut embed } = self;
        let mut fields = fields;
        embed.fields.append(&mut fields);
        EmbedBuilder { embed }
    }

    /// Finishes the embed.
    pub fn build(self) -> (e: Embed)
        ensures
            e == self.embed,
    {
        self.embed
    }
}

impl Default for EmbedBuilder {
    /// Same as [`EmbedBuilder::new`]: a normal embed with nothing set.
    fn default() -> (b: EmbedBuilder)
        ensures
            !b.embed.error,
            b.embed.title.is_none(),
            b.embed.description.is_none(),
            b.embed.fields@.len() == 0,
    {
        EmbedBuilder {
            embed: Embed { error: false, title: None, description: None, fields: Vec::new() },
        }
    }
}

} // verus!
