//! The generator of packet modules, as far as it goes without touching the
//! disk: the text of the modules it emits, the names of the field types it
//! can emit, and whether the output directory is to be removed again.

use vstd::prelude::*;
use vstd::string::StringExecFns;
use crate::schema::describe::type_text;
use crate::schema::field_type::{FieldType, TypeModel};
use crate::schema::packet::{Packet, PacketDirection, PacketModel, field_models};
use crate::text::{hex_pair, push_hex_pair};

verus! {

/// The codec type that a resolved field type is emitted as, for the field
/// types that the codec covers.
pub open spec fn emitted_type(ty: TypeModel) -> Option<Seq<char>> {
    match ty {
        TypeModel::Varint => Some("VarIntField"@),
        TypeModel::U16 => Some("UShortField"@),
        TypeModel::U8 => Some("UByteField"@),
        TypeModel::I64 => Some("LongField"@),
        TypeModel::I32 => Some("IntField"@),
        TypeModel::I8 => Some("ByteField"@),
        TypeModel::I16 => Some("ShortField"@),
        TypeModel::F32 => Some("FloatField"@),
        TypeModel::F64 => Some("DoubleField"@),
        TypeModel::Bool => Some("BoolField"@),
        TypeModel::String => Some("StringField"@),
        TypeModel::Buffer { count_ty } => if *count_ty is Varint {
            Some("VarIntThenByteArrayField"@)
        } else {
            None
        },
        TypeModel::RestOfBuffer => Some("RestOfPacketByteArrayField"@),
        _ => None,
    }
}

/// The codec type that a resolved field type is emitted as; `None` for a
/// field type that is left as a marker in the output.
pub fn field_type(ty: &FieldType) -> (name: Option<&'static str>)
    ensures
        match name {
            Some(n) => emitted_type(ty@) == Some(n@),
            None => emitted_type(ty@) is None,
        },
{
    match ty {
        FieldType::Varint => Some("VarIntField"),
        FieldType::U16 => Some("UShortField"),
        FieldType::U8 => Some("UByteField"),
        FieldType::I64 => Some("LongField"),
        FieldType::I32 => Some("IntField"),
        FieldType::I8 => Some("ByteField"),
        FieldType::I16 => Some("ShortField"),
        FieldType::F32 => Some("FloatField"),
        FieldType::F64 => Some("DoubleField"),
        FieldType::Bool => Some("BoolField"),
        FieldType::String => Some("StringField"),
        FieldType::Buffer { count_ty } => {
            let count: &FieldType = &**count_ty;
            assert(count@ is Varint <==> *count is Varint);
            match count {
                FieldType::Varint => Some("VarIntThenByteArrayField"),
                _ => None,
            }
        },
        FieldType::RestOfBuffer => Some("RestOfPacketByteArrayField"),
        _ => None,
    }
}

/// The text of a name in Pascal case, as the `Inflector` crate gives it.
pub uninterp spec fn pascal_case(text: Seq<char>) -> Seq<char>;

/// The text of a name in snake case, as the `Inflector` crate gives it.
pub uninterp spec fn snake_case(text: Seq<char>) -> Seq<char>;

/// The text in lower case, as the standard library gives it.
pub uninterp spec fn lowercase(text: Seq<char>) -> Seq<char>;

/// Puts a name into Pascal case.
///
/// Trusted: stands for `inflector::cases::pascalcase::to_pascal_case`; its
/// result is known here only by the name [`pascal_case`].
#[verifier::external_body]
pub(crate) fn to_pascal_case(text: &str) -> (out: String)
    ensures
        out@ == pascal_case(text@),
{
    inflector::cases::pascalcase::to_pascal_case(text)
}

/// Puts a name into snake case.
///
/// Trusted: stands for `inflector::cases::snakecase::to_snake_case`; its
/// result is known here only by the name [`snake_case`].
#[verifier::external_body]
pub(crate) fn to_snake_case(text: &str) -> (out: String)
    ensures
        out@ == snake_case(text@),
{
    inflector::cases::snakecase::to_snake_case(text)
}

/// Puts a text into lower case.
///
/// Trusted: stands for `str::to_lowercase` of the standard library; its
/// result is known here only by the name [`lowercase`].
#[verifier::external_body]
pub(crate) fn to_lowercase(text: &str) -> (out: String)
    ensures
        out@ == lowercase(text@),
{
    text.to_lowercase()
}

/// The two lines that announce the module of a state in `mod.rs`.
pub open spec fn state_entry(state: Seq<char>) -> Seq<char> {
    "mod "@ + state + ";\npub use "@ + state + "::*;\n"@
}

/// The name of the file of a module, given the name of the module.
pub open spec fn module_file(module: Seq<char>) -> Seq<char> {
    module + ".rs"@
}

/// The name of the file that the module of a state goes into.
pub open spec fn state_file(state: Seq<char>) -> Seq<char> {
    module_file(lowercase(state))
}

/// The derive that gives a packet its reading or its writing.
pub open spec fn derive_of(direction: PacketDirection) -> Seq<char> {
    match direction {
        PacketDirection::Clientbound => "ClientBoundPacket"@,
        PacketDirection::Serverbound => "ServerBoundPacket"@,
    }
}

/// The line of a field that the codec covers.
pub open spec fn covered_line(ident: Seq<char>, codec: Seq<char>) -> Seq<char> {
    "\tpub "@ + ident + ": "@ + codec + ",\n"@
}

/// The line of a field that the codec does not cover: a comment that
/// keeps the text of its type.
pub open spec fn marked_line(ident: Seq<char>, shown_type: Seq<char>) -> Seq<char> {
    "\t// TODO pub "@ + ident + ": "@ + shown_type + ",\n"@
}

/// The line of one field: its name in snake case and its codec type, or,
/// where the codec does not cover its type, a comment that keeps the text
/// of the type.
pub open spec fn field_line(name: Seq<char>, ty: TypeModel) -> Seq<char> {
    match emitted_type(ty) {
        Some(codec) => covered_line(snake_case(name), codec),
        None => marked_line(snake_case(name), type_text(ty)),
    }
}

/// The lines of the first `n` fields, in order.
pub open spec fn field_lines(fields: Seq<(Seq<char>, TypeModel)>, n: nat) -> Seq<char>
    decreases n,
{
    if n == 0 || n > fields.len() {
        Seq::empty()
    } else {
        field_lines(fields, (n - 1) as nat) + field_line(fields[n - 1].0, fields[n - 1].1)
    }
}

/// The declaration of a packet put together from its parts: its derive,
/// its id as two hexadecimal digits, the name of its struct, and the lines
/// of its fields.
pub open spec fn declaration(
    direction: PacketDirection,
    id: u8,
    struct_name: Seq<char>,
    lines: Seq<char>,
) -> Seq<char> {
    "#[derive("@ + derive_of(direction) + ")]\n#[packet_id = 0x"@ + hex_pair(id)
        + "]\npub struct "@ + struct_name + " {\n"@ + lines + "}\n\n"@
}

/// The declaration of a packet: its derive, its id as two hexadecimal
/// digits, its name in Pascal case, and its fields in order.
pub open spec fn packet_text(packet: PacketModel) -> Seq<char> {
    declaration(
        packet.direction,
        packet.id as u8,
        pascal_case(packet.name),
        field_lines(packet.fields, packet.fields.len()),
    )
}

/// Writes the line of a field that the codec covers.
pub fn covered_field(ident: &str, codec: &str) -> (line: String)
    ensures
        line@ == covered_line(ident@, codec@),
{
    "\tpub ".to_owned().concat(ident).concat(": ").concat(codec).concat(",\n")
}

/// Writes the line of a field that the codec does not cover.
pub fn marked_field(ident: &str, shown_type: &str) -> (line: String)
    ensures
        line@ == marked_line(ident@, shown_type@),
{
    "\t// TODO pub ".to_owned().concat(ident).concat(": ").concat(shown_type).concat(",\n")
}

/// Writes the declaration of a packet, given the name of its struct and
/// the lines of its fields.
pub fn declare(direction: PacketDirection, id: u8, struct_name: &str, lines: &str) -> (text:
    String)
    ensures
        text@ == declaration(direction, id, struct_name@, lines@),
{
    let derive = match direction {
        PacketDirection::Clientbound => "ClientBoundPacket",
        PacketDirection::Serverbound => "ServerBoundPacket",
    };
    let mut out = "#[derive(".to_owned();
    out.append(derive);
    out.append(")]\n#[packet_id = 0x");
    push_hex_pair(&mut out, id);
    out.append("]\npub struct ");
    out.append(struct_name);
    out.append(" {\n");
    out.append(lines);
    out.append("}\n\n");
    assert(out@ =~= declaration(direction, id, struct_name@, lines@));
    out
}

/// The name of the file of a module, given the name of the module.
pub fn file_of(module: &str) -> (name: String)
    ensures
        name@ == module_file(module@),
{
    module.to_owned().concat(".rs")
}

/// The generator of the modules of one protocol version: it puts the text
/// of `mod.rs` together, and hands out a generator for each state.
#[derive(Debug, PartialEq, Eq)]
pub struct ModuleGenerator {
    module_dir: String,
    mod_rs: String,
}

/// The generator of the module of one state: it puts the text of the
/// module together, packet by packet.
#[derive(Debug, PartialEq, Eq)]
pub struct StateGenerator {
    file_name: String,
    text: String,
}

impl ModuleGenerator {
    /// The directory that the modules go into.
    pub closed spec fn directory(&self) -> Seq<char> {
        self.module_dir@
    }

    /// The text of `mod.rs` so far.
    pub closed spec fn index(&self) -> Seq<char> {
        self.mod_rs@
    }

    /// A generator that writes into `module_dir`, with an empty `mod.rs`.
    pub fn new(module_dir: String) -> (generator: ModuleGenerator)
        ensures
            generator.directory() == module_dir@,
            generator.index() == Seq::<char>::empty(),
    {
        ModuleGenerator { module_dir, mod_rs: String::new() }
    }

    /// The directory that the modules go into.
    pub fn module_dir(&self) -> (dir: &str)
        ensures
            dir@ == self.directory(),
    {
        self.module_dir.as_str()
    }

    /// The text of `mod.rs` so far.
    pub fn mod_rs(&self) -> (text: &str)
        ensures
            text@ == self.index(),
    {
        self.mod_rs.as_str()
    }

    /// Announces the module of a state in `mod.rs` and opens that module.
    pub fn emit_state(&mut self, state: &str) -> (opened: StateGenerator)
        ensures
            final(self).directory() == old(self).directory(),
            final(self).index() == old(self).index() + state_entry(state@),
            opened.name() == state_file(state@),
            opened.content() == Seq::<char>::empty(),
    {
        let mut entry = "mod ".to_owned();
        entry.append(state);
        entry.append(";\npub use ");
        entry.append(state);
        entry.append("::*;\n");
        self.mod_rs.append(entry.as_str());
        StateGenerator::new(state)
    }
}

impl StateGenerator {
    /// The name of the file that the module goes into.
    pub closed spec fn name(&self) -> Seq<char> {
        self.file_name@
    }

    /// The text of the module so far.
    pub closed spec fn content(&self) -> Seq<char> {
        self.text@
    }

    /// An empty module for the state `state`.
    pub fn new(state: &str) -> (opened: StateGenerator)
        ensures
            opened.name() == state_file(state@),
            opened.content() == Seq::<char>::empty(),
    {
        let module = to_lowercase(state);
        StateGenerator { file_name: file_of(module.as_str()), text: String::new() }
    }

    /// The name of the file that the module goes into.
    pub fn file_name(&self) -> (name: &str)
        ensures
            name@ == self.name(),
    {
        self.file_name.as_str()
    }

    /// The text of the module so far.
    pub fn text(&self) -> (text: &str)
        ensures
            text@ == self.content(),
    {
        self.text.as_str()
    }

    /// Appends the declaration of a packet to the module.
    pub fn emit_packet(&mut self, packet: &Packet)
        ensures
            final(self).name() == old(self).name(),
            final(self).content() == old(self).content() + packet_text(packet@),
    {
        let struct_name = to_pascal_case(packet.name.as_str());
        let mut lines = String::new();
        let ghost model = field_models(packet.fields@);
        let mut i: usize = 0;
        assert(lines@ =~= field_lines(model, 0));
        while i < packet.fields.len()
            invariant
                i <= packet.fields.len(),
                model == field_models(packet.fields@),
                lines@ == field_lines(model, i as nat),
            decreases packet.fields.len() - i,
        {
            let field = &packet.fields[i];
            assert(model[i as int] == (field.name@, field.ty@));
            let ident = to_snake_case(field.name.as_str());
            let line = match field_type(&field.ty) {
                Some(ty) => covered_field(ident.as_str(), ty),
                None => {
                    let shown = field.ty.debug_text();
                    marked_field(ident.as_str(), shown.as_str())
                },
            };
            lines.append(line.as_str());
            i = i + 1;
        }
        let out = declare(packet.direction, packet.id, struct_name.as_str(), lines.as_str());
        self.text.append(out.as_str());
    }
}

/// The promise to remove a directory again unless the work on it succeeds.
#[derive(Debug, PartialEq, Eq)]
pub struct DeleteDirBomb {
    path: String,
    armed: bool,
}

impl DeleteDirBomb {
    /// The directory that is at stake.
    pub closed spec fn target(&self) -> Seq<char> {
        self.path@
    }

    /// Whether the directory is still to be removed.
    pub closed spec fn is_armed(&self) -> bool {
        self.armed
    }

    /// A promise to remove `path`.
    pub fn new(path: String) -> (bomb: DeleteDirBomb)
        ensures
            bomb.target() == path@,
            bomb.is_armed(),
    {
        DeleteDirBomb { path, armed: true }
    }

    /// The work succeeded: the directory stays.
    pub fn defuse(&mut self)
        ensures
            !final(self).is_armed(),
            final(self).target() == old(self).target(),
    {
        self.armed = false;
    }

    /// The end of the work: the directory to remove, if it is still to be
    /// removed.
    pub fn finish(self) -> (doomed: Option<String>)
        ensures
            match doomed {
                Some(path) => self.is_armed() && path@ == self.target(),
                None => !self.is_armed(),
            },
    {
        if self.armed {
            Some(self.path)
        } else {
            None
        }
    }
}

} // verus!
