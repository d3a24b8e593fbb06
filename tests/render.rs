use azindexer::mapper::TypeError;
use azindexer::render::{make_ascii_titlecase, to_identifier};
use azindexer::schema::{Definiton, Field};

fn field(name: &str, ty: &str) -> Field {
    Field::new(name.to_string(), ty.to_string())
}

fn ts(ty: &str) -> Result<String, TypeError> {
    field("f", ty).convert_to_ts()
}

const PREAMBLE: &str = "type Coordinates = {\ntype: string;\ncoordinates: number[];\n}\n\n";

#[test]
fn maps_every_primitive_tag() {
    assert_eq!(ts("Edm.String").unwrap(), "string");
    assert_eq!(ts("Edm.GeographyPoint").unwrap(), "Coordinates");
    assert_eq!(ts("Edm.Double").unwrap(), "number");
    assert_eq!(ts("Edm.Int32").unwrap(), "number");
    assert_eq!(ts("Edm.Int64").unwrap(), "number");
    assert_eq!(ts("Edm.DateTimeOffset").unwrap(), "Date");
    assert_eq!(ts("Edm.Boolean").unwrap(), "boolean");
    assert_eq!(ts("Edm.ComplexType").unwrap(), "{}");
}

#[test]
fn unknown_tags_fall_back_to_any() {
    assert_eq!(ts("Edm.Unsupported").unwrap(), "any");
    assert_eq!(ts("").unwrap(), "any");
    assert_eq!(ts("edm.string").unwrap(), "any");
    assert_eq!(ts("Collection").unwrap(), "any");
}

#[test]
fn parse_str_looks_up_the_table() {
    let f = field("f", "ignored");
    assert_eq!(f.parse_str("Edm.Boolean"), "boolean");
    assert_eq!(f.parse_str("Edm.Int6"), "any");
}

#[test]
fn maps_collections_with_array_suffix() {
    assert_eq!(ts("Collection(Edm.String)").unwrap(), "string[]");
    assert_eq!(ts("Collection(Edm.Int64)").unwrap(), "number[]");
    assert_eq!(ts("Collection(Edm.GeographyPoint)").unwrap(), "Coordinates[]");
    assert_eq!(ts("Collection(Edm.ComplexType)").unwrap(), "{}[]");
    assert_eq!(ts("Collection(Edm.Unknown)").unwrap(), "any[]");
    assert_eq!(ts("Collection()").unwrap(), "any[]");
}

#[test]
fn collection_uses_last_closing_paren() {
    assert_eq!(ts("Collection(Edm.Int32)trailing").unwrap(), "number[]");
    assert_eq!(ts("Collection(Edm.String))").unwrap(), "any[]");
}

#[test]
fn parse_collection_direct() {
    let f = field("f", "ignored");
    assert_eq!(f.parse_collection("Collection(Edm.Double)").unwrap(), "number[]");
    assert_eq!(
        f.parse_collection("Collection(Edm.Double"),
        Err(TypeError::MalformedCollection)
    );
}

#[test]
fn malformed_collection_is_an_error() {
    assert_eq!(ts("Collection(Edm.String"), Err(TypeError::MalformedCollection));
    assert_eq!(ts("Collection("), Err(TypeError::MalformedCollection));
    let def = Definiton::new(
        "broken".to_string(),
        vec![field("a", "Edm.String"), field("b", "Collection(Edm.String")],
    );
    assert_eq!(def.render(), Err(TypeError::MalformedCollection));
    let mut out = String::from("kept");
    assert_eq!(def.write_to_file(&mut out), Err(TypeError::MalformedCollection));
    assert_eq!(out, "kept");
}

#[test]
fn member_line_format() {
    assert_eq!(field("PartitionKey", "Edm.String").member_line().unwrap(), "PartitionKey: string;");
    assert_eq!(field("Tags", "Collection(Edm.Boolean)").member_line().unwrap(), "Tags: boolean[];");
    assert_eq!(
        field("x", "Collection(Edm.Boolean").member_line(),
        Err(TypeError::MalformedCollection)
    );
}

#[test]
fn round_trip_azure_indexer() {
    let def = Definiton::new(
        "azure-indexer".to_string(),
        vec![field("PartitionKey", "Edm.String"), field("Tags", "Collection(Edm.String)")],
    );
    let expected = "type Coordinates = {\ntype: string;\ncoordinates: number[];\n}\n\ninterface AzureIndexer {\nPartitionKey: string;\nTags: string[];\n}\n";
    assert_eq!(def.render().unwrap(), expected);
}

#[test]
fn unknown_type_renders_any() {
    let def = Definiton::new("idx".to_string(), vec![field("Weird", "Edm.Unsupported")]);
    let expected = format!("{}interface Idx {{\nWeird: any;\n}}\n", PREAMBLE);
    assert_eq!(def.render().unwrap(), expected);
}

#[test]
fn field_order_is_kept() {
    let names = [("a", "Edm.String"), ("b", "Edm.Int32"), ("c", "Edm.Boolean")];
    let orders = [[0, 1, 2], [2, 0, 1], [1, 2, 0], [2, 1, 0]];
    for order in orders.iter() {
        let fields: Vec<Field> = order.iter().map(|&i| field(names[i].0, names[i].1)).collect();
        let def = Definiton::new("n".to_string(), fields);
        let mut body = String::new();
        for &i in order.iter() {
            body.push_str(&format!("{}: {};\n", names[i].0, ["string", "number", "boolean"][i]));
        }
        let expected = format!("{}interface N {{\n{}}}\n", PREAMBLE, body);
        assert_eq!(def.render().unwrap(), expected);
    }
}

#[test]
fn duplicate_fields_are_not_merged() {
    let def = Definiton::new(
        "d".to_string(),
        vec![field("k", "Edm.String"), field("k", "Edm.String")],
    );
    let expected = format!("{}interface D {{\nk: string;\nk: string;\n}}\n", PREAMBLE);
    assert_eq!(def.render().unwrap(), expected);
}

#[test]
fn empty_definition_still_has_preamble() {
    let def = Definiton::new("empty".to_string(), vec![]);
    assert_eq!(def.render().unwrap(), format!("{}interface Empty {{\n}}\n", PREAMBLE));
}

#[test]
fn write_to_file_appends() {
    let def = Definiton::new("a-b".to_string(), vec![field("x", "Edm.Double")]);
    let mut out = String::from("// head\n");
    assert_eq!(def.write_to_file(&mut out), Ok(()));
    assert_eq!(out, format!("// head\n{}interface AB {{\nx: number;\n}}\n", PREAMBLE));
}

#[test]
fn identifier_from_hyphenated_name() {
    assert_eq!(to_identifier("azure-indexer"), "AzureIndexer");
    assert_eq!(to_identifier("a--b-"), "AB");
    assert_eq!(to_identifier(""), "");
    assert_eq!(to_identifier("-x"), "X");
    assert_eq!(to_identifier("my-Index-9x"), "MyIndex9x");
}

#[test]
fn identifier_is_idempotent_on_titlecased_names() {
    assert_eq!(to_identifier("AzureIndexer"), "AzureIndexer");
    let once = to_identifier("azureindexer");
    assert_eq!(once, "Azureindexer");
    assert_eq!(to_identifier(&once), once);
}

#[test]
fn titlecase_first_character_only() {
    assert_eq!(make_ascii_titlecase("hello world"), "Hello world");
    assert_eq!(make_ascii_titlecase("hELLO"), "HELLO");
    assert_eq!(make_ascii_titlecase(""), "");
    assert_eq!(make_ascii_titlecase("1abc"), "1abc");
}

#[test]
fn titlecase_non_ascii_first_character() {
    assert_eq!(make_ascii_titlecase("éclair"), "Éclair");
    assert_eq!(make_ascii_titlecase("ßtraße"), "SStraße");
}

#[test]
fn field_and_definition_accessors() {
    let f = field("n", "Edm.String");
    assert_eq!(f.name(), "n");
    assert_eq!(f.de_type(), "Edm.String");
    let def = Definiton::new("d".to_string(), vec![f]);
    assert_eq!(def.name(), "d");
    assert_eq!(def.fields().len(), 1);
}
