//! The data model: a definition is a name and an ordered list of typed
//! fields; plus the plain settings that the command line and the
//! configuration file supply.
use vstd::prelude::*;

verus! {

/// What a field is, mathematically: its name and its source type tag.
pub struct FieldModel {
    pub name: Seq<char>,
    pub ty: Seq<char>,
}

/// What a definition is, mathematically: its name and its fields, in order.
pub struct DefinitionModel {
    pub name: Seq<char>,
    pub fields: Seq<FieldModel>,
}

/// One schema attribute: a name and a source type tag such as `Edm.String`
/// or `Collection(Edm.Int32)`.
#[derive(Debug)]
pub struct Field {
    /// Name used as the member key.
    name: String,
    /// The schema's `type` entry, one of the OData type tags.
    de_type: String,
}

impl View for Field {
    type V = FieldModel;

    closed spec fn view(&self) -> FieldModel {
        FieldModel { name: self.name@, ty: self.de_type@ }
    }
}

impl Field {
    pub fn new(name: String, de_type: String) -> (r: Field)
        ensures
            r@.name == name@,
            r@.ty == de_type@,
    {
        Field { name, de_type }
    }

    pub fn name(&self) -> (r: &str)
        ensures
            r@ == self@.name,
    {
        self.name.as_str()
    }

    pub fn de_type(&self) -> (r: &str)
        ensures
            r@ == self@.ty,
    {
        self.de_type.as_str()
    }
}

/// The models of a list of fields, in order.
pub open spec fn fields_model(fields: Seq<Field>) -> Seq<FieldModel> {
    fields.map_values(|f: Field| f@)
}

/// A named index definition whose fields become the members of one
/// interface.
#[derive(Debug)]
pub struct Definiton {
    /// Name used to derive the interface's identifier.
    name: String,
    fields: Vec<Field>,
}

impl View for Definiton {
    type V = DefinitionModel;

    closed spec fn view(&self) -> DefinitionModel {
        DefinitionModel { name: self.name@, fields: fields_model(self.fields@) }
    }
}

impl Definiton {
    pub fn new(name: String, fields: Vec<Field>) -> (r: Definiton)
        ensures
            r@.name == name@,
            r@.fields == fields_model(fields@),
    {
        Definiton { name, fields }
    }

    pub fn name(&self) -> (r: &str)
        ensures
            r@ == self@.name,
    {
        self.name.as_str()
    }

    pub fn fields(&self) -> (r: &Vec<Field>)
        ensures
            fields_model(r@) == self@.fields,
    {
        &self.fields
    }
}

/// Where the schema lives: the search service, the index and the API
/// version to ask it with.
#[derive(Debug)]
pub struct AzureMeta {
    pub service_name: String,
    pub index_name: String,
    pub api_version: String,
}

/// The command line's settings.
#[derive(Debug)]
pub struct Opt {
    /// Whether to write a starting configuration file.
    pub init: bool,
    /// The configuration file to read.
    pub config: String,
}

} // verus!
