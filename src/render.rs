//! Renders a definition as a TypeScript declaration: a fixed preamble, an
//! interface named after the definition, and one member per field.
use vstd::prelude::*;
use crate::mapper::{ts_text, type_ok, TypeError};
use crate::schema::{fields_model, Definiton, Field, FieldModel};
use crate::text::{find_char, is_first_index};

verus! {

/// What `char::to_uppercase` yields for a character.
pub uninterp spec fn upper_of(c: char) -> Seq<char>;

/// Relies on `char::to_uppercase`: the characters of the uppercase mapping
/// of `c`, which depend on `c` alone.
#[verifier::external_body]
fn unicode_uppercase(c: char) -> (r: String)
    ensures
        r@ == upper_of(c),
{
    c.to_uppercase().collect()
}

/// Relies on `String::push`: appends one character.
#[verifier::external_body]
fn push_char(s: &mut String, c: char)
    ensures
        final(s)@ == old(s)@.push(c),
{
    s.push(c)
}

pub open spec fn is_ascii_char(c: char) -> bool {
    (c as u32) < 128
}

pub open spec fn is_ascii_lower(c: char) -> bool {
    'a' <= c && c <= 'z'
}

/// The uppercase form of a character: ASCII letters `a` to `z` become `A`
/// to `Z`, other ASCII characters stay, and any other character takes its
/// Unicode uppercase mapping.
pub open spec fn upper_first(c: char) -> Seq<char> {
    if is_ascii_lower(c) {
        seq![((c as u32) - 32) as char]
    } else if is_ascii_char(c) {
        seq![c]
    } else {
        upper_of(c)
    }
}

/// `s` with its first character uppercased and the rest kept as it is.
pub open spec fn titlecase(s: Seq<char>) -> Seq<char> {
    if s.len() == 0 {
        Seq::empty()
    } else {
        upper_first(s[0]) + s.drop_first()
    }
}

/// The identifier for a name: the name split on `-`, each piece
/// title-cased, the pieces joined with nothing between them.
pub open spec fn identifier(s: Seq<char>) -> Seq<char>
    decreases s.len(),
{
    if exists|i: int| is_first_index(s, '-', i) {
        let i = choose|i: int| is_first_index(s, '-', i);
        titlecase(s.subrange(0, i)) + identifier(s.subrange(i + 1, s.len() as int))
    } else {
        titlecase(s)
    }
}

/// The member line of a field, without its line break.
pub open spec fn member_text(f: FieldModel) -> Seq<char> {
    f.name + ": "@ + ts_text(f.ty) + ";"@
}

/// The member lines of the fields, each ended by a line break, in the
/// fields' order.
pub open spec fn body_text(fields: Seq<FieldModel>) -> Seq<char>
    decreases fields.len(),
{
    if fields.len() == 0 {
        Seq::empty()
    } else {
        body_text(fields.drop_last()) + member_text(fields.last()) + "\n"@
    }
}

/// Every field's type tag can be mapped.
pub open spec fn fields_ok(fields: Seq<FieldModel>) -> bool {
    forall|i: int| 0 <= i < fields.len() ==> type_ok(#[trigger] fields[i].ty)
}

/// The declaration of the `Coordinates` type that precedes every interface.
pub open spec fn preamble() -> Seq<char> {
    "type Coordinates = {\ntype: string;\ncoordinates: number[];\n}\n\n"@
}

/// The whole declaration for a definition whose fields can all be mapped.
pub open spec fn rendered(name: Seq<char>, fields: Seq<FieldModel>) -> Seq<char> {
    preamble() + "interface "@ + identifier(name) + " {\n"@ + body_text(fields) + "}\n"@
}

/// The body of two lists of fields is the body of the first followed by the
/// body of the second.
pub proof fn lemma_body_append(a: Seq<FieldModel>, b: Seq<FieldModel>)
    ensures
        body_text(a + b) == body_text(a) + body_text(b),
    decreases b.len(),
{
    if b.len() == 0 {
        assert(a + b =~= a);
        assert(body_text(b) =~= Seq::empty());
        assert(body_text(a) + body_text(b) =~= body_text(a));
    } else {
        lemma_body_append(a, b.drop_last());
        assert((a + b).drop_last() =~= a + b.drop_last());
        assert((a + b).last() == b.last());
        assert(body_text(a + b) =~= body_text(a) + body_text(b));
    }
}

/// The member lines come out in the order of the fields: for every
/// position `i`, the declaration holds the lines of the fields before `i`,
/// then the line of field `i`, then the lines of the fields after it.
pub proof fn lemma_field_order(name: Seq<char>, fields: Seq<FieldModel>, i: int)
    requires
        0 <= i < fields.len(),
    ensures
        rendered(name, fields) == preamble() + "interface "@ + identifier(name) + " {\n"@
            + body_text(fields.take(i)) + member_text(fields[i]) + "\n"@ + body_text(
            fields.skip(i + 1),
        ) + "}\n"@,
{
    let before = fields.take(i);
    let after = fields.skip(i + 1);
    assert(fields =~= before.push(fields[i]) + after);
    lemma_body_append(before.push(fields[i]), after);
    assert(before.push(fields[i]).drop_last() =~= before);
    let b = body_text(fields.take(i)) + member_text(fields[i]) + "\n"@ + body_text(
        fields.skip(i + 1),
    );
    assert(body_text(fields) =~= b);
    let h = preamble() + "interface "@ + identifier(name) + " {\n"@;
    assert(h + b + "}\n"@ =~= h + body_text(fields.take(i)) + member_text(fields[i]) + "\n"@
        + body_text(fields.skip(i + 1)) + "}\n"@);
}

/// A hyphen-free name that already starts with an uppercase or other
/// non-lowercase ASCII character is its own identifier.
pub proof fn lemma_identifier_of_titlecased(s: Seq<char>)
    requires
        forall|j: int| 0 <= j < s.len() ==> s[j] != '-',
        s.len() > 0 ==> is_ascii_char(s[0]) && !is_ascii_lower(s[0]),
    ensures
        identifier(s) == s,
{
    assert(!exists|i: int| is_first_index(s, '-', i));
    if s.len() > 0 {
        assert(titlecase(s) =~= s);
    }
}

/// For a hyphen-free name that starts with an ASCII character, deriving the
/// identifier a second time changes nothing.
pub proof fn lemma_identifier_idempotent(s: Seq<char>)
    requires
        forall|j: int| 0 <= j < s.len() ==> s[j] != '-',
        s.len() > 0 ==> is_ascii_char(s[0]),
    ensures
        identifier(identifier(s)) == identifier(s),
{
    assert(!exists|i: int| is_first_index(s, '-', i));
    let t = identifier(s);
    if s.len() > 0 {
        let c = s[0];
        assert(t == titlecase(s));
        assert(t[0] == upper_first(c)[0]);
        assert(t =~= seq![t[0]] + s.drop_first());
        assert(is_ascii_char(t[0]) && !is_ascii_lower(t[0]) && t[0] != '-');
        assert forall|j: int| 0 <= j < t.len() implies t[j] != '-' by {
            if j > 0 {
                assert(t[j] == s[j]);
            }
        }
        lemma_identifier_of_titlecased(t);
    } else {
        assert(t =~= s);
    }
}

/// Uppercases the first character of a string and keeps the rest.
pub fn make_ascii_titlecase(s: &str) -> (r: String)
    ensures
        r@ == titlecase(s@),
{
    let n = s.unicode_len();
    if n == 0 {
        return String::new();
    }
    let c = s.get_char(0);
    let mut r = if 'a' <= c && c <= 'z' {
        let d: u8 = ((c as u32) - 32) as u8;
        let mut u = String::new();
        push_char(&mut u, d as char);
        u
    } else if (c as u32) < 128 {
        let mut u = String::new();
        push_char(&mut u, c);
        u
    } else {
        unicode_uppercase(c)
    };
    r.append(s.substring_char(1, n));
    assert(r@ =~= titlecase(s@));
    r
}

/// The identifier for a definition's name.
pub fn to_identifier(s: &str) -> (r: String)
    ensures
        r@ == identifier(s@),
    decreases s@.len(),
{
    match find_char(s, '-') {
        Some(i) => {
            proof {
                crate::text::lemma_first_index_unique(s@, '-', i as int);
            }
            let n = s.unicode_len();
            let head = make_ascii_titlecase(s.substring_char(0, i));
            let tail = to_identifier(s.substring_char(i + 1, n));
            head.concat(tail.as_str())
        },
        None => make_ascii_titlecase(s),
    }
}

impl Field {
    /// The field's member line, `<name>: <type>;`.
    pub fn member_line(&self) -> (r: Result<String, TypeError>)
        ensures
            r is Ok <==> type_ok(self@.ty),
            r matches Ok(t) ==> t@ == member_text(self@),
    {
        match self.convert_to_ts() {
            Ok(t) => {
                let mut line = String::from_str(self.name());
                line.append(": ");
                line.append(t.as_str());
                line.append(";");
                Ok(line)
            },
            Err(e) => Err(e),
        }
    }
}

impl Definiton {
    /// The TypeScript declaration of this definition.
    pub fn render(&self) -> (r: Result<String, TypeError>)
        ensures
            r is Ok <==> fields_ok(self@.fields),
            r matches Ok(t) ==> t@ == rendered(self@.name, self@.fields),
    {
        let mut out = String::from_str(
            "type Coordinates = {\ntype: string;\ncoordinates: number[];\n}\n\n",
        );
        out.append("interface ");
        let id = to_identifier(self.name());
        out.append(id.as_str());
        out.append(" {\n");
        let fields = self.fields();
        let ghost head = out@;
        let ghost model = self@.fields;
        let mut i: usize = 0;
        while i < fields.len()
            invariant
                fields_model(fields@) == model,
                model == self@.fields,
                i <= fields@.len(),
                out@ == head + body_text(model.take(i as int)),
                forall|j: int| 0 <= j < i ==> type_ok(#[trigger] model[j].ty),
            decreases fields@.len() - i,
        {
            assert(fields@[i as int]@ == model[i as int]);
            match fields[i].member_line() {
                Ok(line) => {
                    out.append(line.as_str());
                    out.append("\n");
                    proof {
                        assert(model.take(i + 1).drop_last() =~= model.take(i as int));
                    }
                    i = i + 1;
                },
                Err(e) => {
                    assert(!type_ok(model[i as int].ty));
                    return Err(e);
                },
            }
        }
        assert(model.take(i as int) =~= model);
        out.append("}\n");
        Ok(out)
    }

    /// Appends this definition's declaration to `buff`; on an error `buff`
    /// is left as it was.
    pub fn write_to_file(&self, buff: &mut String) -> (r: Result<(), TypeError>)
        ensures
            r is Ok <==> fields_ok(self@.fields),
            r is Ok ==> final(buff)@ == old(buff)@ + rendered(self@.name, self@.fields),
            r is Err ==> final(buff)@ == old(buff)@,
    {
        match self.render() {
            Ok(text) => {
                buff.append(text.as_str());
                Ok(())
            },
            Err(e) => Err(e),
        }
    }
}

} // verus!
