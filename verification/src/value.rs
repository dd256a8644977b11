//! The value the plugin passes along a pipeline: an Anytype item together
//! with the context (space, type, property) it was found in.
use vstd::prelude::*;
use crate::api::{Color, Member, MemberRole, MemberStatus, Object, Property, Space, Tag, Template, Type};
use crate::json::JsonValue;

verus! {

/// An Anytype item and the context it was found in.
#[derive(Debug, PartialEq)]
pub enum AnytypeValue {
    Space {
        id: String,
        name: String,
        description: Option<String>,
        icon: Option<JsonValue>,
    },
    Type {
        id: String,
        name: String,
        key: String,
        plural_name: Option<String>,
        layout: Option<String>,
        space_id: String,
    },
    Object {
        id: String,
        name: Option<String>,
        properties: JsonValue,
        markdown: Option<String>,
        snippet: Option<String>,
        space_id: String,
        type_id: String,
        type_key: String,
    },
    Property {
        id: String,
        name: String,
        key: String,
        format: String,
        space_id: String,
        type_id: String,
    },
    Tag {
        id: String,
        name: String,
        key: String,
        color: Option<Color>,
        space_id: String,
        property_id: String,
    },
    Member {
        id: String,
        name: Option<String>,
        global_name: Option<String>,
        role: MemberRole,
        status: MemberStatus,
        space_id: String,
    },
    Template {
        id: String,
        name: Option<String>,
        markdown: Option<String>,
        snippet: Option<String>,
        space_id: String,
        type_id: String,
    },
}

impl AnytypeValue {
    /// The id of the item.
    pub open spec fn spec_id(self) -> Seq<char> {
        match self {
            AnytypeValue::Space { id, .. } => id@,
            AnytypeValue::Type { id, .. } => id@,
            AnytypeValue::Object { id, .. } => id@,
            AnytypeValue::Property { id, .. } => id@,
            AnytypeValue::Tag { id, .. } => id@,
            AnytypeValue::Member { id, .. } => id@,
            AnytypeValue::Template { id, .. } => id@,
        }
    }

    /// The name shown for the item.  An object or template without a name
    /// is shown by its snippet, and without a snippet by its id; a member
    /// without a name by its global name, and without one by its id.
    pub open spec fn spec_name(self) -> Seq<char> {
        match self {
            AnytypeValue::Space { name, .. } => name@,
            AnytypeValue::Type { name, .. } => name@,
            AnytypeValue::Object { id, name, snippet, .. } => match name {
                Some(n) => n@,
                None => match snippet {
                    Some(s) => s@,
                    None => id@,
                },
            },
            AnytypeValue::Property { name, .. } => name@,
            AnytypeValue::Tag { name, .. } => name@,
            AnytypeValue::Member { id, name, global_name, .. } => match name {
                Some(n) => n@,
                None => match global_name {
                    Some(g) => g@,
                    None => id@,
                },
            },
            AnytypeValue::Template { id, name, snippet, .. } => match name {
                Some(n) => n@,
                None => match snippet {
                    Some(s) => s@,
                    None => id@,
                },
            },
        }
    }

    /// The space the item belongs to; a space is its own.
    pub open spec fn spec_space_id(self) -> Seq<char> {
        match self {
            AnytypeValue::Space { id, .. } => id@,
            AnytypeValue::Type { space_id, .. } => space_id@,
            AnytypeValue::Object { space_id, .. } => space_id@,
            AnytypeValue::Property { space_id, .. } => space_id@,
            AnytypeValue::Tag { space_id, .. } => space_id@,
            AnytypeValue::Member { space_id, .. } => space_id@,
            AnytypeValue::Template { space_id, .. } => space_id@,
        }
    }

    /// The type the item belongs to, where it has one; a type is its own.
    pub open spec fn spec_type_id(self) -> Option<Seq<char>> {
        match self {
            AnytypeValue::Type { id, .. } => Some(id@),
            AnytypeValue::Object { type_id, .. } => Some(type_id@),
            AnytypeValue::Property { type_id, .. } => Some(type_id@),
            AnytypeValue::Template { type_id, .. } => Some(type_id@),
            _ => None,
        }
    }

    /// The key of the item's type, where it has one; a type has its own.
    pub open spec fn spec_type_key(self) -> Option<Seq<char>> {
        match self {
            AnytypeValue::Type { key, .. } => Some(key@),
            AnytypeValue::Object { type_key, .. } => Some(type_key@),
            _ => None,
        }
    }

    /// The property the item belongs to, where it has one; a property is its own.
    pub open spec fn spec_property_id(self) -> Option<Seq<char>> {
        match self {
            AnytypeValue::Property { id, .. } => Some(id@),
            AnytypeValue::Tag { property_id, .. } => Some(property_id@),
            _ => None,
        }
    }

    pub fn id(&self) -> (r: &str)
        ensures
            r@ == self.spec_id(),
    {
        match self {
            AnytypeValue::Space { id, .. } => id.as_str(),
            AnytypeValue::Type { id, .. } => id.as_str(),
            AnytypeValue::Object { id, .. } => id.as_str(),
            AnytypeValue::Property { id, .. } => id.as_str(),
            AnytypeValue::Tag { id, .. } => id.as_str(),
            AnytypeValue::Member { id, .. } => id.as_str(),
            AnytypeValue::Template { id, .. } => id.as_str(),
        }
    }

    pub fn name(&self) -> (r: &str)
        ensures
            r@ == self.spec_name(),
    {
        match self {
            AnytypeValue::Space { name, .. } => name.as_str(),
            AnytypeValue::Type { name, .. } => name.as_str(),
            AnytypeValue::Object { id, name, snippet, .. } => match name {
                Some(n) => n.as_str(),
                None => match snippet {
                    Some(s) => s.as_str(),
                    None => id.as_str(),
                },
            },
            AnytypeValue::Property { name, .. } => name.as_str(),
            AnytypeValue::Tag { name, .. } => name.as_str(),
            AnytypeValue::Member { id, name, global_name, .. } => match name {
                Some(n) => n.as_str(),
                None => match global_name {
                    Some(g) => g.as_str(),
                    None => id.as_str(),
                },
            },
            AnytypeValue::Template { id, name, snippet, .. } => match name {
                Some(n) => n.as_str(),
                None => match snippet {
                    Some(s) => s.as_str(),
                    None => id.as_str(),
                },
            },
        }
    }

    pub fn space_id(&self) -> (r: Option<&str>)
        ensures
            r matches Some(s) && s@ == self.spec_space_id(),
    {
        match self {
            AnytypeValue::Space { id, .. } => Some(id.as_str()),
            AnytypeValue::Type { space_id, .. } => Some(space_id.as_str()),
            AnytypeValue::Object { space_id, .. } => Some(space_id.as_str()),
            AnytypeValue::Property { space_id, .. } => Some(space_id.as_str()),
            AnytypeValue::Tag { space_id, .. } => Some(space_id.as_str()),
            AnytypeValue::Member { space_id, .. } => Some(space_id.as_str()),
            AnytypeValue::Template { space_id, .. } => Some(space_id.as_str()),
        }
    }

    pub fn type_id(&self) -> (r: Option<&str>)
        ensures
            match r {
                Some(s) => self.spec_type_id() == Some(s@),
                None => self.spec_type_id() is None,
            },
    {
        match self {
            AnytypeValue::Type { id, .. } => Some(id.as_str()),
            AnytypeValue::Object { type_id, .. } => Some(type_id.as_str()),
            AnytypeValue::Property { type_id, .. } => Some(type_id.as_str()),
            AnytypeValue::Template { type_id, .. } => Some(type_id.as_str()),
            _ => None,
        }
    }

    pub fn type_key(&self) -> (r: Option<&str>)
        ensures
            match r {
                Some(s) => self.spec_type_key() == Some(s@),
                None => self.spec_type_key() is None,
            },
    {
        match self {
            AnytypeValue::Type { key, .. } => Some(key.as_str()),
            AnytypeValue::Object { type_key, .. } => Some(type_key.as_str()),
            _ => None,
        }
    }

    pub fn property_id(&self) -> (r: Option<&str>)
        ensures
            match r {
                Some(s) => self.spec_property_id() == Some(s@),
                None => self.spec_property_id() is None,
            },
    {
        match self {
            AnytypeValue::Property { id, .. } => Some(id.as_str()),
            AnytypeValue::Tag { property_id, .. } => Some(property_id.as_str()),
            _ => None,
        }
    }

    /// A space, as the API returned it.
    pub fn from_space(space: Space) -> (v: AnytypeValue)
        ensures
            v == (AnytypeValue::Space { id: space.id, name: space.name, description: space.description, icon: space.icon }),
    {
        AnytypeValue::Space { id: space.id, name: space.name, description: space.description, icon: space.icon }
    }

    /// A type, in the space it was found in.
    pub fn from_type(t: Type, space_id: String) -> (v: AnytypeValue)
        ensures
            v == (AnytypeValue::Type {
                id: t.id,
                name: t.name,
                key: t.key,
                plural_name: t.plural_name,
                layout: t.layout,
                space_id,
            }),
    {
        AnytypeValue::Type { id: t.id, name: t.name, key: t.key, plural_name: t.plural_name, layout: t.layout, space_id }
    }

    /// An object, in the space it was found in, with the id and key of its type.
    pub fn from_object(object: Object, space_id: String, type_id: String, type_key: String) -> (v: AnytypeValue)
        ensures
            v == (AnytypeValue::Object {
                id: object.id,
                name: object.name,
                properties: object.properties,
                markdown: None,
                snippet: None,
                space_id,
                type_id,
                type_key,
            }),
    {
        AnytypeValue::Object {
            id: object.id,
            name: object.name,
            properties: object.properties,
            markdown: None,
            snippet: None,
            space_id,
            type_id,
            type_key,
        }
    }

    /// A property, in the space and type it was found in.
    pub fn from_property(property: Property, space_id: String, type_id: String) -> (v: AnytypeValue)
        ensures
            v == (AnytypeValue::Property {
                id: property.id,
                name: property.name,
                key: property.key,
                format: property.format,
                space_id,
                type_id,
            }),
    {
        AnytypeValue::Property {
            id: property.id,
            name: property.name,
            key: property.key,
            format: property.format,
            space_id,
            type_id,
        }
    }

    /// A tag, in the space and property it was found in.
    pub fn from_tag(tag: Tag, space_id: String, property_id: String) -> (v: AnytypeValue)
        ensures
            v == (AnytypeValue::Tag {
                id: tag.id,
                name: tag.name,
                key: tag.key,
                color: tag.color,
                space_id,
                property_id,
            }),
    {
        AnytypeValue::Tag { id: tag.id, name: tag.name, key: tag.key, color: tag.color, space_id, property_id }
    }

    /// A member, in the space it was found in.
    pub fn from_member(member: Member, space_id: String) -> (v: AnytypeValue)
        ensures
            v == (AnytypeValue::Member {
                id: member.id,
                name: member.name,
                global_name: member.global_name,
                role: member.role,
                status: member.status,
                space_id,
            }),
    {
        AnytypeValue::Member {
            id: member.id,
            name: member.name,
            global_name: member.global_name,
            role: member.role,
            status: member.status,
            space_id,
        }
    }

    /// A template, in the space and type it was found in.
    pub fn from_template(template: Template, space_id: String, type_id: String) -> (v: AnytypeValue)
        ensures
            v == (AnytypeValue::Template {
                id: template.id,
                name: template.name,
                markdown: template.markdown,
                snippet: template.snippet,
                space_id,
                type_id,
            }),
    {
        AnytypeValue::Template {
            id: template.id,
            name: template.name,
            markdown: template.markdown,
            snippet: template.snippet,
            space_id,
            type_id,
        }
    }
}

} // verus!
