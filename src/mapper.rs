//! Maps a source type tag to a TypeScript type name.
use vstd::prelude::*;
use crate::schema::Field;
use crate::text::{has_prefix, is_last_index, rfind_char, same_chars, starts_with};

verus! {

/// A type tag that cannot be mapped.
#[derive(Debug, Clone, Copy, PartialEq, Eq, Structural)]
pub enum TypeError {
    /// A `Collection(` wrapper without any closing parenthesis.
    MalformedCollection,
}

/// The prefix that marks a collection wrapper.
pub open spec fn collection_prefix() -> Seq<char> {
    "Collection("@
}

/// The fixed table from primitive tags to TypeScript types; `any` for a
/// tag that is not in it.
pub open spec fn primitive_ts(tag: Seq<char>) -> Seq<char> {
    if tag == "Edm.String"@ {
        "string"@
    } else if tag == "Edm.GeographyPoint"@ {
        "Coordinates"@
    } else if tag == "Edm.Double"@ || tag == "Edm.Int32"@ || tag == "Edm.Int64"@ {
        "number"@
    } else if tag == "Edm.DateTimeOffset"@ {
        "Date"@
    } else if tag == "Edm.Boolean"@ {
        "boolean"@
    } else if tag == "Edm.ComplexType"@ {
        "{}"@
    } else {
        "any"@
    }
}

/// The tags that the table knows.
pub open spec fn is_known_primitive(tag: Seq<char>) -> bool {
    primitive_ts(tag) != "any"@
}

pub open spec fn is_collection(t: Seq<char>) -> bool {
    has_prefix(t, collection_prefix())
}

/// What follows the `Collection(` prefix.
pub open spec fn collection_rest(t: Seq<char>) -> Seq<char> {
    t.subrange(collection_prefix().len() as int, t.len() as int)
}

/// The wrapper is well formed: a `)` follows the prefix somewhere.
pub open spec fn has_closing_paren(t: Seq<char>) -> bool {
    exists|i: int| is_last_index(collection_rest(t), ')', i)
}

/// The wrapped tag: what lies between the prefix and the last `)`.
pub open spec fn collection_inner(t: Seq<char>) -> Seq<char> {
    let i = choose|i: int| is_last_index(collection_rest(t), ')', i);
    collection_rest(t).subrange(0, i)
}

/// The tag can be mapped: it is no collection wrapper, or a well-formed one.
pub open spec fn type_ok(t: Seq<char>) -> bool {
    is_collection(t) ==> has_closing_paren(t)
}

/// The TypeScript type of a tag that can be mapped.
pub open spec fn ts_text(t: Seq<char>) -> Seq<char> {
    if is_collection(t) {
        primitive_ts(collection_inner(t)) + "[]"@
    } else {
        primitive_ts(t)
    }
}

/// No tag of the table is a collection wrapper.
pub proof fn lemma_known_not_collection(tag: Seq<char>)
    requires
        is_known_primitive(tag),
    ensures
        !is_collection(tag),
{
    reveal_strlit("Collection(");
    reveal_strlit("Edm.String");
    reveal_strlit("Edm.GeographyPoint");
    reveal_strlit("Edm.Double");
    reveal_strlit("Edm.Int32");
    reveal_strlit("Edm.Int64");
    reveal_strlit("Edm.DateTimeOffset");
    reveal_strlit("Edm.Boolean");
    reveal_strlit("Edm.ComplexType");
    reveal_strlit("any");
    if is_collection(tag) {
        assert(tag.subrange(0, collection_prefix().len() as int)[0] == 'C');
        assert(tag[0] == 'C');
    }
}

/// Each tag of the table maps to the type the table gives it; a tag that is
/// neither in the table nor a collection wrapper maps to `any`.
pub proof fn lemma_primitive_mapping(tag: Seq<char>)
    ensures
        tag == "Edm.String"@ ==> type_ok(tag) && ts_text(tag) == "string"@,
        tag == "Edm.GeographyPoint"@ ==> type_ok(tag) && ts_text(tag) == "Coordinates"@,
        tag == "Edm.Double"@ ==> type_ok(tag) && ts_text(tag) == "number"@,
        tag == "Edm.Int32"@ ==> type_ok(tag) && ts_text(tag) == "number"@,
        tag == "Edm.Int64"@ ==> type_ok(tag) && ts_text(tag) == "number"@,
        tag == "Edm.DateTimeOffset"@ ==> type_ok(tag) && ts_text(tag) == "Date"@,
        tag == "Edm.Boolean"@ ==> type_ok(tag) && ts_text(tag) == "boolean"@,
        tag == "Edm.ComplexType"@ ==> type_ok(tag) && ts_text(tag) == "{}"@,
        !is_known_primitive(tag) && !is_collection(tag) ==> type_ok(tag) && ts_text(tag)
            == "any"@,
{
    reveal_strlit("Edm.String");
    reveal_strlit("Edm.GeographyPoint");
    reveal_strlit("Edm.Double");
    reveal_strlit("Edm.Int32");
    reveal_strlit("Edm.Int64");
    reveal_strlit("Edm.DateTimeOffset");
    reveal_strlit("Edm.Boolean");
    reveal_strlit("Edm.ComplexType");
    reveal_strlit("string");
    reveal_strlit("Coordinates");
    reveal_strlit("number");
    reveal_strlit("Date");
    reveal_strlit("boolean");
    reveal_strlit("{}");
    reveal_strlit("any");
    let any = "any"@;
    if tag == "Edm.String"@ {
        assert("string"@.len() != any.len());
    }
    if tag == "Edm.GeographyPoint"@ {
        assert(tag.len() != "Edm.String"@.len());
        assert("Coordinates"@.len() != any.len());
    }
    if tag == "Edm.Double"@ {
        assert(tag[4] != "Edm.String"@[4]);
        assert(tag.len() != "Edm.GeographyPoint"@.len());
        assert("number"@.len() != any.len());
    }
    if tag == "Edm.Int32"@ {
        assert(tag.len() != "Edm.String"@.len());
        assert(tag.len() != "Edm.GeographyPoint"@.len());
        assert("number"@.len() != any.len());
    }
    if tag == "Edm.Int64"@ {
        assert(tag.len() != "Edm.String"@.len());
        assert(tag.len() != "Edm.GeographyPoint"@.len());
        assert(tag.len() != "Edm.Double"@.len());
        assert(tag[7] != "Edm.Int32"@[7]);
        assert("number"@.len() != any.len());
    }
    if tag == "Edm.DateTimeOffset"@ {
        assert(tag.len() != "Edm.String"@.len());
        assert(tag[4] != "Edm.GeographyPoint"@[4]);
        assert(tag.len() != "Edm.Double"@.len());
        assert(tag.len() != "Edm.Int32"@.len());
        assert(tag.len() != "Edm.Int64"@.len());
        assert("Date"@.len() != any.len());
    }
    if tag == "Edm.Boolean"@ {
        assert(tag.len() != "Edm.String"@.len());
        assert(tag.len() != "Edm.GeographyPoint"@.len());
        assert(tag.len() != "Edm.Double"@.len());
        assert(tag.len() != "Edm.Int32"@.len());
        assert(tag.len() != "Edm.Int64"@.len());
        assert(tag.len() != "Edm.DateTimeOffset"@.len());
        assert("boolean"@.len() != any.len());
    }
    if tag == "Edm.ComplexType"@ {
        assert(tag.len() != "Edm.String"@.len());
        assert(tag.len() != "Edm.GeographyPoint"@.len());
        assert(tag.len() != "Edm.Double"@.len());
        assert(tag.len() != "Edm.Int32"@.len());
        assert(tag.len() != "Edm.Int64"@.len());
        assert(tag.len() != "Edm.DateTimeOffset"@.len());
        assert(tag.len() != "Edm.Boolean"@.len());
        assert("{}"@.len() != any.len());
    }
    if is_known_primitive(tag) {
        lemma_known_not_collection(tag);
    }
}

/// `Collection(<tag>)` maps to the type of `<tag>` followed by `[]`; for a
/// tag of the table that is the tag's own mapping with `[]` appended.
pub proof fn lemma_collection_mapping(tag: Seq<char>)
    ensures
        type_ok(collection_prefix() + tag + ")"@),
        ts_text(collection_prefix() + tag + ")"@) == primitive_ts(tag) + "[]"@,
        is_known_primitive(tag) ==> ts_text(collection_prefix() + tag + ")"@) == ts_text(tag)
            + "[]"@,
{
    reveal_strlit(")");
    let t = collection_prefix() + tag + ")"@;
    let n = collection_prefix().len() as int;
    assert(t.subrange(0, n) =~= collection_prefix());
    assert(collection_rest(t) =~= tag.push(')'));
    assert(is_last_index(collection_rest(t), ')', tag.len() as int));
    crate::text::lemma_last_index_unique(collection_rest(t), ')', tag.len() as int);
    assert(collection_inner(t) =~= tag);
    if is_known_primitive(tag) {
        lemma_known_not_collection(tag);
    }
}

impl Field {
    /// The TypeScript type of this field's tag.
    pub fn convert_to_ts(&self) -> (r: Result<String, TypeError>)
        ensures
            r is Ok <==> type_ok(self@.ty),
            r matches Ok(t) ==> t@ == ts_text(self@.ty),
    {
        let t = self.de_type();
        if starts_with(t, "Collection(") {
            self.parse_collection(t)
        } else {
            Ok(self.parse_str(t))
        }
    }

    /// Looks a primitive tag up in the table.
    pub fn parse_str(&self, s: &str) -> (r: String)
        ensures
            r@ == primitive_ts(s@),
    {
        if same_chars(s, "Edm.String") {
            String::from_str("string")
        } else if same_chars(s, "Edm.GeographyPoint") {
            String::from_str("Coordinates")
        } else if same_chars(s, "Edm.Double") || same_chars(s, "Edm.Int32") || same_chars(
            s,
            "Edm.Int64",
        ) {
            String::from_str("number")
        } else if same_chars(s, "Edm.DateTimeOffset") {
            String::from_str("Date")
        } else if same_chars(s, "Edm.Boolean") {
            String::from_str("boolean")
        } else if same_chars(s, "Edm.ComplexType") {
            String::from_str("{}")
        } else {
            String::from_str("any")
        }
    }

    /// Maps a `Collection(<tag>)` wrapper to `<type>[]`.
    pub fn parse_collection(&self, s: &str) -> (r: Result<String, TypeError>)
        requires
            is_collection(s@),
        ensures
            r is Ok <==> has_closing_paren(s@),
            r matches Ok(t) ==> t@ == primitive_ts(collection_inner(s@)) + "[]"@,
    {
        let start = "Collection(".unicode_len();
        let content = s.substring_char(start, s.unicode_len());
        assert(content@ == collection_rest(s@));
        match rfind_char(content, ')') {
            Some(end_paren) => {
                proof {
                    crate::text::lemma_last_index_unique(content@, ')', end_paren as int);
                }
                let inner = content.substring_char(0, end_paren);
                let t = self.parse_str(inner);
                Ok(t.concat("[]"))
            },
            None => Err(TypeError::MalformedCollection),
        }
    }
}

} // verus!
