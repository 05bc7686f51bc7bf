//! Rendering of values as Typst literals: structs and maps become
//! `(key: value, ...)` dictionaries, sequences `(a, b, )` arrays, strings are
//! quoted, and date strings of the form `"datetime(...)"` lose their quotes so
//! that they become Typst `datetime` calls.
use vstd::prelude::*;
use vstd::string::StringExecFns;
use crate::text::{decimal, int_text, push_u64, push_i64};

verus! {

/// The mathematical shape of a value handed to the renderer, one case per
/// shape of serde's data model (options, unit structs and newtype structs
/// render as what they hold or as `null`).
pub enum TypstTerm {
    Bool(bool),
    Int(int),
    /// A number already in its textual form (floating-point readings).
    Number(Seq<char>),
    Char(char),
    Str(Seq<char>),
    Null,
    UnitVariant(Seq<char>),
    NewtypeVariant(Seq<char>, Box<TypstTerm>),
    List(Seq<TypstTerm>),
    TupleVariant(Seq<char>, Seq<TypstTerm>),
    Dict(Seq<(TypstTerm, TypstTerm)>),
    Struct(Seq<(Seq<char>, TypstTerm)>),
    StructVariant(Seq<char>, Seq<(Seq<char>, TypstTerm)>),
}

/// The text that the renderer produces for a term.
pub open spec fn render(t: TypstTerm) -> Seq<char>
    decreases t,
{
    match t {
        TypstTerm::Bool(b) => if b { "true"@ } else { "false"@ },
        TypstTerm::Int(i) => int_text(i),
        TypstTerm::Number(s) => s,
        TypstTerm::Char(c) => seq!['"', c, '"'],
        TypstTerm::Str(s) => seq!['"'] + s + seq!['"'],
        TypstTerm::Null => "null"@,
        TypstTerm::UnitVariant(name) => name,
        TypstTerm::NewtypeVariant(name, v) => name + ": "@ + render(*v),
        TypstTerm::List(items) => "("@ + render_elements(items) + ")"@,
        TypstTerm::TupleVariant(name, items) => name + ": ("@ + render_joined(items) + ")"@,
        TypstTerm::Dict(entries) => "("@ + render_entries(entries) + ")"@,
        TypstTerm::Struct(fields) => "("@ + render_fields(fields) + ")"@,
        TypstTerm::StructVariant(name, fields) => name + ": ("@ + render_fields(fields) + ")"@,
    }
}

/// Each element followed by ", " (array literals keep a trailing comma).
pub open spec fn render_elements(items: Seq<TypstTerm>) -> Seq<char>
    decreases items,
{
    if items.len() == 0 {
        Seq::empty()
    } else {
        render_elements(items.drop_last()) + render(items.last()) + ", "@
    }
}

/// The elements separated by ", ".
pub open spec fn render_joined(items: Seq<TypstTerm>) -> Seq<char>
    decreases items,
{
    if items.len() == 0 {
        Seq::empty()
    } else if items.len() == 1 {
        render(items[0])
    } else {
        render_joined(items.drop_last()) + ", "@ + render(items.last())
    }
}

/// `key: value` pairs separated by ", ", keys rendered as values.
pub open spec fn render_entries(entries: Seq<(TypstTerm, TypstTerm)>) -> Seq<char>
    decreases entries,
{
    if entries.len() == 0 {
        Seq::empty()
    } else if entries.len() == 1 {
        render(entries[0].0) + ": "@ + render(entries[0].1)
    } else {
        render_entries(entries.drop_last()) + ", "@ + render(entries.last().0) + ": "@ + render(
            entries.last().1,
        )
    }
}

/// `name: value` fields separated by ", ", names written bare.
pub open spec fn render_fields(fields: Seq<(Seq<char>, TypstTerm)>) -> Seq<char>
    decreases fields,
{
    if fields.len() == 0 {
        Seq::empty()
    } else if fields.len() == 1 {
        fields[0].0 + ": "@ + render(fields[0].1)
    } else {
        render_fields(fields.drop_last()) + ", "@ + fields.last().0 + ": "@ + render(
            fields.last().1,
        )
    }
}

/// A value ready to be rendered.
pub enum TypstValue {
    Bool(bool),
    Unsigned(u64),
    Signed(i64),
    Number(String),
    Char(char),
    Str(String),
    Null,
    UnitVariant(String),
    NewtypeVariant(String, Box<TypstValue>),
    List(Vec<TypstValue>),
    TupleVariant(String, Vec<TypstValue>),
    Dict(Vec<(TypstValue, TypstValue)>),
    Struct(Vec<(String, TypstValue)>),
    StructVariant(String, Vec<(String, TypstValue)>),
}

impl TypstValue {
    /// The term that this value stands for.
    pub open spec fn term(&self) -> TypstTerm
        decreases self,
    {
        match self {
            TypstValue::Bool(b) => TypstTerm::Bool(*b),
            TypstValue::Unsigned(n) => TypstTerm::Int(*n as int),
            TypstValue::Signed(n) => TypstTerm::Int(*n as int),
            TypstValue::Number(s) => TypstTerm::Number(s@),
            TypstValue::Char(c) => TypstTerm::Char(*c),
            TypstValue::Str(s) => TypstTerm::Str(s@),
            TypstValue::Null => TypstTerm::Null,
            TypstValue::UnitVariant(name) => TypstTerm::UnitVariant(name@),
            TypstValue::NewtypeVariant(name, v) => TypstTerm::NewtypeVariant(
                name@,
                Box::new((**v).term()),
            ),
            TypstValue::List(items) => TypstTerm::List(
                terms_of(items@),
            ),
            TypstValue::TupleVariant(name, items) => TypstTerm::TupleVariant(
                name@,
                terms_of(items@),
            ),
            TypstValue::Dict(entries) => TypstTerm::Dict(
                entry_terms_of(entries@),
            ),
            TypstValue::Struct(fields) => TypstTerm::Struct(
                field_terms_of(fields@),
            ),
            TypstValue::StructVariant(name, fields) => TypstTerm::StructVariant(
                name@,
                field_terms_of(fields@),
            ),
        }
    }
}

/// The terms of a sequence of values.
pub open spec fn terms_of(items: Seq<TypstValue>) -> Seq<TypstTerm>
    decreases items,
{
    if items.len() == 0 {
        Seq::empty()
    } else {
        terms_of(items.drop_last()).push(items.last().term())
    }
}

/// The terms of a sequence of key/value pairs.
pub open spec fn entry_terms_of(entries: Seq<(TypstValue, TypstValue)>) -> Seq<(TypstTerm, TypstTerm)>
    decreases entries,
{
    if entries.len() == 0 {
        Seq::empty()
    } else {
        entry_terms_of(entries.drop_last()).push((entries.last().0.term(), entries.last().1.term()))
    }
}

/// The terms of a sequence of named fields.
pub open spec fn field_terms_of(fields: Seq<(String, TypstValue)>) -> Seq<(Seq<char>, TypstTerm)>
    decreases fields,
{
    if fields.len() == 0 {
        Seq::empty()
    } else {
        field_terms_of(fields.drop_last()).push((fields.last().0@, fields.last().1.term()))
    }
}

pub proof fn lemma_terms_of(items: Seq<TypstValue>)
    ensures
        terms_of(items).len() == items.len(),
        forall|i: int| 0 <= i < items.len() ==> #[trigger] terms_of(items)[i] == items[i].term(),
    decreases items.len(),
{
    if items.len() > 0 {
        lemma_terms_of(items.drop_last());
    }
}

pub proof fn lemma_entry_terms_of(entries: Seq<(TypstValue, TypstValue)>)
    ensures
        entry_terms_of(entries).len() == entries.len(),
        forall|i: int|
            0 <= i < entries.len() ==> #[trigger] entry_terms_of(entries)[i] == (
                entries[i].0.term(),
                entries[i].1.term(),
            ),
    decreases entries.len(),
{
    if entries.len() > 0 {
        lemma_entry_terms_of(entries.drop_last());
    }
}

proof fn lemma_field_terms_of(fields: Seq<(String, TypstValue)>)
    ensures
        field_terms_of(fields).len() == fields.len(),
        forall|i: int|
            0 <= i < fields.len() ==> #[trigger] field_terms_of(fields)[i] == (
                fields[i].0@,
                fields[i].1.term(),
            ),
    decreases fields.len(),
{
    if fields.len() > 0 {
        lemma_field_terms_of(fields.drop_last());
    }
}

/// `n` copies of two spaces.
pub open spec fn indent_text(n: nat) -> Seq<char>
    decreases n,
{
    if n == 0 {
        Seq::empty()
    } else {
        indent_text((n - 1) as nat) + "  "@
    }
}

/// Why a value could not be rendered.
#[derive(Debug)]
pub enum TypstSerError {
    Message(String),
}

impl TypstSerError {
    /// The text of the error.
    pub fn message(&self) -> (r: String)
        ensures
            r@ == (match self {
                TypstSerError::Message(m) => m@,
            }),
    {
        match self {
            TypstSerError::Message(m) => m.clone(),
        }
    }

    /// An error carrying the given text.
    pub fn custom(msg: &str) -> (r: Self)
        ensures
            r matches TypstSerError::Message(m) && m@ == msg@,
    {
        TypstSerError::Message(msg.to_string())
    }
}

/// Accumulates the rendered text.
pub struct TypstSerializer {
    pub output: String,
    pub _level: usize,
}

/// State of a sequence or map being written: whether no element was written yet.
pub struct Compound {
    pub first: bool,
    pub _is_map: bool,
}

/// State of a tuple variant being written.
pub struct VariantCompound {
    pub first: bool,
}

/// State of a struct being written.
pub struct StructCompound {
    pub first: bool,
}

/// State of a struct variant being written.
pub struct StructVariantCompound {
    pub first: bool,
}

impl TypstSerializer {
    /// An empty serializer.
    pub fn new() -> (r: Self)
        ensures
            r.output@ == Seq::<char>::empty(),
            r._level == 0,
    {
        TypstSerializer { output: String::new(), _level: 0 }
    }

    /// Writes two spaces per indentation level.
    pub fn _indent(&mut self)
        ensures
            final(self).output@ == old(self).output@ + indent_text(old(self)._level as nat),
            final(self)._level == old(self)._level,
    {
        let mut k: usize = 0;
        while k < self._level
            invariant
                k <= self._level,
                self._level == old(self)._level,
                self.output@ == old(self).output@ + indent_text(k as nat),
            decreases self._level - k,
        {
            self.output.append("  ");
            k = k + 1;
        }
    }

    pub fn serialize_bool(&mut self, v: bool)
        ensures
            final(self).output@ == old(self).output@ + render(TypstTerm::Bool(v)),
            final(self)._level == old(self)._level,
    {
        if v {
            self.output.append("true");
        } else {
            self.output.append("false");
        }
    }

    /// Signed integers of every width.
    pub fn serialize_i64(&mut self, v: i64)
        ensures
            final(self).output@ == old(self).output@ + render(TypstTerm::Int(v as int)),
            final(self)._level == old(self)._level,
    {
        push_i64(&mut self.output, v);
    }

    /// Unsigned integers of every width.
    pub fn serialize_u64(&mut self, v: u64)
        ensures
            final(self).output@ == old(self).output@ + render(TypstTerm::Int(v as int)),
            final(self)._level == old(self)._level,
    {
        push_u64(&mut self.output, v);
    }

    /// A floating-point number, given by its textual form.
    pub fn serialize_number(&mut self, text: &str)
        ensures
            final(self).output@ == old(self).output@ + render(TypstTerm::Number(text@)),
            final(self)._level == old(self)._level,
    {
        self.output.append(text);
    }

    pub fn serialize_char(&mut self, v: char)
        ensures
            final(self).output@ == old(self).output@ + render(TypstTerm::Char(v)),
            final(self)._level == old(self)._level,
    {
        let c = char_text(v);
        self.output.append("\"");
        self.output.append(c.as_str());
        self.output.append("\"");
        proof { reveal_strlit("\""); }
    }

    /// Strings are always quoted, verbatim.
    pub fn serialize_str(&mut self, v: &str)
        ensures
            final(self).output@ == old(self).output@ + render(TypstTerm::Str(v@)),
            final(self)._level == old(self)._level,
    {
        self.output.append("\"");
        self.output.append(v);
        self.output.append("\"");
        proof { reveal_strlit("\""); }
    }

    /// Byte strings have no Typst form.
    pub fn serialize_bytes(&mut self, _v: &[u8]) -> (r: Result<(), TypstSerError>)
        ensures
            r matches Err(TypstSerError::Message(m)) && m@ == "serialize_bytes not supported"@,
            final(self).output@ == old(self).output@,
            final(self)._level == old(self)._level,
    {
        Err(TypstSerError::Message("serialize_bytes not supported".to_string()))
    }

    pub fn serialize_none(&mut self)
        ensures
            final(self).output@ == old(self).output@ + render(TypstTerm::Null),
            final(self)._level == old(self)._level,
    {
        self.output.append("null");
    }

    pub fn serialize_unit(&mut self)
        ensures
            final(self).output@ == old(self).output@ + render(TypstTerm::Null),
            final(self)._level == old(self)._level,
    {
        self.output.append("null");
    }

    pub fn serialize_unit_struct(&mut self, _name: &str)
        ensures
            final(self).output@ == old(self).output@ + render(TypstTerm::Null),
            final(self)._level == old(self)._level,
    {
        self.output.append("null");
    }

    pub fn serialize_unit_variant(&mut self, variant: &str)
        ensures
            final(self).output@ == old(self).output@ + render(TypstTerm::UnitVariant(variant@)),
            final(self)._level == old(self)._level,
    {
        self.output.append(variant);
    }

    /// Opens a sequence: `(`.
    pub fn serialize_seq(&mut self) -> (c: Compound)
        ensures
            final(self).output@ == old(self).output@ + "("@,
            final(self)._level == old(self)._level,
            c.first && !c._is_map,
    {
        self.output.append("(");
        Compound { first: true, _is_map: false }
    }

    /// Opens a map: `(`.
    pub fn serialize_map(&mut self) -> (c: Compound)
        ensures
            final(self).output@ == old(self).output@ + "("@,
            final(self)._level == old(self)._level,
            c.first && c._is_map,
    {
        self.output.append("(");
        Compound { first: true, _is_map: true }
    }

    /// Opens a struct: `(`.
    pub fn serialize_struct(&mut self) -> (c: StructCompound)
        ensures
            final(self).output@ == old(self).output@ + "("@,
            final(self)._level == old(self)._level,
            c.first,
    {
        self.output.append("(");
        StructCompound { first: true }
    }

    /// Opens a tuple variant: `variant: (`.
    pub fn serialize_tuple_variant(&mut self, variant: &str) -> (c: VariantCompound)
        ensures
            final(self).output@ == old(self).output@ + variant@ + ": ("@,
            final(self)._level == old(self)._level,
            c.first,
    {
        self.output.append(variant);
        self.output.append(": (");
        VariantCompound { first: true }
    }

    /// Opens a struct variant: `variant: (`.
    pub fn serialize_struct_variant(&mut self, variant: &str) -> (c: StructVariantCompound)
        ensures
            final(self).output@ == old(self).output@ + variant@ + ": ("@,
            final(self)._level == old(self)._level,
            c.first,
    {
        self.output.append(variant);
        self.output.append(": (");
        StructVariantCompound { first: true }
    }
}

impl Compound {
    /// Writes one sequence element followed by ", ".
    pub fn serialize_element(&self, ser: &mut TypstSerializer, value: &TypstValue)
        ensures
            final(ser).output@ == old(ser).output@ + render(value.term()) + ", "@,
            final(ser)._level == old(ser)._level,
        decreases value, 2nat,
    {
        ser.serialize(value);
        ser.output.append(", ");
    }

    /// Writes a map key, preceded by ", " unless it is the first entry, and followed by ": ".
    /// The key is rendered on its own, as a value.
    pub fn serialize_key(&mut self, ser: &mut TypstSerializer, key: &TypstValue)
        ensures
            final(ser).output@ == old(ser).output@ + (if old(self).first {
                Seq::<char>::empty()
            } else {
                ", "@
            }) + render(key.term()) + ": "@,
            final(ser)._level == old(ser)._level,
            !final(self).first,
            final(self)._is_map == old(self)._is_map,
        decreases key, 2nat,
    {
        if !self.first {
            ser.output.append(", ");
        }
        self.first = false;
        let mut key_buf = TypstSerializer::new();
        key_buf.serialize(key);
        ser.output.append(key_buf.output.as_str());
        ser.output.append(": ");
    }

    /// Writes a map value.
    pub fn serialize_value(&self, ser: &mut TypstSerializer, value: &TypstValue)
        ensures
            final(ser).output@ == old(ser).output@ + render(value.term()),
            final(ser)._level == old(ser)._level,
        decreases value, 2nat,
    {
        ser.serialize(value);
    }

    /// Closes a sequence or map: `)`.
    pub fn end(self, ser: &mut TypstSerializer)
        ensures
            final(ser).output@ == old(ser).output@ + ")"@,
            final(ser)._level == old(ser)._level,
    {
        ser.output.append(")");
    }
}

impl VariantCompound {
    /// Writes one field of a tuple variant, preceded by ", " unless it is the first.
    pub fn serialize_field(&mut self, ser: &mut TypstSerializer, value: &TypstValue)
        ensures
            final(ser).output@ == old(ser).output@ + (if old(self).first {
                Seq::<char>::empty()
            } else {
                ", "@
            }) + render(value.term()),
            final(ser)._level == old(ser)._level,
            !final(self).first,
        decreases value, 2nat,
    {
        if !self.first {
            ser.output.append(", ");
        }
        self.first = false;
        ser.serialize(value);
    }

    /// Closes the variant: `)`.
    pub fn end(self, ser: &mut TypstSerializer)
        ensures
            final(ser).output@ == old(ser).output@ + ")"@,
            final(ser)._level == old(ser)._level,
    {
        ser.output.append(")");
    }
}

impl StructCompound {
    /// Writes `key: value`, preceded by ", " unless it is the first field.
    pub fn serialize_field(&mut self, ser: &mut TypstSerializer, key: &str, value: &TypstValue)
        ensures
            final(ser).output@ == old(ser).output@ + (if old(self).first {
                Seq::<char>::empty()
            } else {
                ", "@
            }) + key@ + ": "@ + render(value.term()),
            final(ser)._level == old(ser)._level,
            !final(self).first,
        decreases value, 2nat,
    {
        if !self.first {
            ser.output.append(", ");
        }
        self.first = false;
        ser.output.append(key);
        ser.output.append(": ");
        ser.serialize(value);
    }

    /// Closes the struct: `)`.
    pub fn end(self, ser: &mut TypstSerializer)
        ensures
            final(ser).output@ == old(ser).output@ + ")"@,
            final(ser)._level == old(ser)._level,
    {
        ser.output.append(")");
    }
}

impl StructVariantCompound {
    /// Writes `key: value`, preceded by ", " unless it is the first field.
    pub fn serialize_field(&mut self, ser: &mut TypstSerializer, key: &str, value: &TypstValue)
        ensures
            final(ser).output@ == old(ser).output@ + (if old(self).first {
                Seq::<char>::empty()
            } else {
                ", "@
            }) + key@ + ": "@ + render(value.term()),
            final(ser)._level == old(ser)._level,
            !final(self).first,
        decreases value, 2nat,
    {
        if !self.first {
            ser.output.append(", ");
        }
        self.first = false;
        ser.output.append(key);
        ser.output.append(": ");
        ser.serialize(value);
    }

    /// Closes the variant: `)`.
    pub fn end(self, ser: &mut TypstSerializer)
        ensures
            final(ser).output@ == old(ser).output@ + ")"@,
            final(ser)._level == old(ser)._level,
    {
        ser.output.append(")");
    }
}

impl TypstSerializer {
    /// Writes `variant: value`.
    pub fn serialize_newtype_variant(&mut self, variant: &str, value: &TypstValue)
        ensures
            final(self).output@ == old(self).output@ + variant@ + ": "@ + render(value.term()),
            final(self)._level == old(self)._level,
        decreases value, 2nat,
    {
        self.output.append(variant);
        self.output.append(": ");
        self.serialize(value);
    }

    /// Writes the rendering of a value.
    pub fn serialize(&mut self, v: &TypstValue)
        ensures
            final(self).output@ == old(self).output@ + render(v.term()),
            final(self)._level == old(self)._level,
        decreases v, 1nat,
    {
        match v {
            TypstValue::Bool(b) => self.serialize_bool(*b),
            TypstValue::Unsigned(n) => self.serialize_u64(*n),
            TypstValue::Signed(n) => self.serialize_i64(*n),
            TypstValue::Number(t) => self.serialize_number(t.as_str()),
            TypstValue::Char(c) => self.serialize_char(*c),
            TypstValue::Str(t) => self.serialize_str(t.as_str()),
            TypstValue::Null => self.serialize_none(),
            TypstValue::UnitVariant(name) => self.serialize_unit_variant(name.as_str()),
            TypstValue::NewtypeVariant(name, inner) => {
                self.serialize_newtype_variant(name.as_str(), &**inner);
            },
            TypstValue::List(_) => self.serialize_list(v),
            TypstValue::TupleVariant(_, _) => self.serialize_tuple_variant_value(v),
            TypstValue::Dict(_) => self.serialize_dict(v),
            TypstValue::Struct(_) => self.serialize_struct_value(v),
            TypstValue::StructVariant(_, _) => self.serialize_struct_variant_value(v),
        }
    }

    #[verifier::loop_isolation(false)]
    fn serialize_list(&mut self, v: &TypstValue)
        requires
            v is List,
        ensures
            final(self).output@ == old(self).output@ + render(v.term()),
            final(self)._level == old(self)._level,
        decreases v, 0nat,
    {
        match v {
            TypstValue::List(items) => {
        let ghost start = self.output@;
        let ghost ts = terms_of(items@);
        proof { lemma_terms_of(items@); }
        let c = self.serialize_seq();
        let mut i: usize = 0;
        assert(ts.take(0) =~= Seq::<TypstTerm>::empty());
        while i < items.len()
            invariant
                i <= items@.len(),
                ts == terms_of(items@),
                ts.len() == items@.len(),
                forall|j: int| 0 <= j < items@.len() ==> #[trigger] ts[j] == items@[j].term(),
                self.output@ == start + "("@ + render_elements(ts.take(i as int)),
                self._level == old(self)._level,
            decreases items@.len() - i,
        {
            proof { assert(decreases_to!(*v => items@[i as int])); }
            c.serialize_element(self, &items[i]);
            assert(ts.take(i + 1).drop_last() =~= ts.take(i as int));
            i = i + 1;
        }
        assert(ts.take(i as int) =~= ts);
        c.end(self);
            },
            _ => {},
        }
    }

    #[verifier::loop_isolation(false)]
    fn serialize_tuple_variant_value(&mut self, v: &TypstValue)
        requires
            v is TupleVariant,
        ensures
            final(self).output@ == old(self).output@ + render(v.term()),
            final(self)._level == old(self)._level,
        decreases v, 0nat,
    {
        match v {
            TypstValue::TupleVariant(name, items) => {
        let ghost start = self.output@;
        let ghost ts = terms_of(items@);
        proof { lemma_terms_of(items@); }
        let mut c = self.serialize_tuple_variant(name.as_str());
        let mut i: usize = 0;
        assert(ts.take(0) =~= Seq::<TypstTerm>::empty());
        while i < items.len()
            invariant
                i <= items@.len(),
                ts == terms_of(items@),
                ts.len() == items@.len(),
                forall|j: int| 0 <= j < items@.len() ==> #[trigger] ts[j] == items@[j].term(),
                c.first == (i == 0),
                self.output@ == start + name@ + ": ("@ + render_joined(ts.take(i as int)),
                self._level == old(self)._level,
            decreases items@.len() - i,
        {
            proof { assert(decreases_to!(*v => items@[i as int])); }
            c.serialize_field(self, &items[i]);
            assert(ts.take(i + 1).drop_last() =~= ts.take(i as int));
            i = i + 1;
        }
        assert(ts.take(i as int) =~= ts);
        c.end(self);
            },
            _ => {},
        }
    }

    #[verifier::loop_isolation(false)]
    fn serialize_dict(&mut self, v: &TypstValue)
        requires
            v is Dict,
        ensures
            final(self).output@ == old(self).output@ + render(v.term()),
            final(self)._level == old(self)._level,
        decreases v, 0nat,
    {
        match v {
            TypstValue::Dict(entries) => {
        let ghost start = self.output@;
        let ghost ts = entry_terms_of(entries@);
        proof { lemma_entry_terms_of(entries@); }
        let mut c = self.serialize_map();
        let mut i: usize = 0;
        assert(ts.take(0) =~= Seq::<(TypstTerm, TypstTerm)>::empty());
        while i < entries.len()
            invariant
                i <= entries@.len(),
                ts == entry_terms_of(entries@),
                ts.len() == entries@.len(),
                forall|j: int|
                    0 <= j < entries@.len() ==> #[trigger] ts[j] == (
                        entries@[j].0.term(),
                        entries@[j].1.term(),
                    ),
                c.first == (i == 0),
                self.output@ == start + "("@ + render_entries(ts.take(i as int)),
                self._level == old(self)._level,
            decreases entries@.len() - i,
        {
            let entry = &entries[i];
            proof { assert(decreases_to!(*v => entries@[i as int].0)); assert(decreases_to!(*v => entries@[i as int].1)); }
            c.serialize_key(self, &entry.0);
            c.serialize_value(self, &entry.1);
            assert(ts.take(i + 1).drop_last() =~= ts.take(i as int));
            i = i + 1;
        }
        assert(ts.take(i as int) =~= ts);
        c.end(self);
            },
            _ => {},
        }
    }

    #[verifier::loop_isolation(false)]
    fn serialize_struct_value(&mut self, v: &TypstValue)
        requires
            v is Struct,
        ensures
            final(self).output@ == old(self).output@ + render(v.term()),
            final(self)._level == old(self)._level,
        decreases v, 0nat,
    {
        match v {
            TypstValue::Struct(fields) => {
        let ghost start = self.output@;
        let ghost ts = field_terms_of(fields@);
        proof { lemma_field_terms_of(fields@); }
        let mut c = self.serialize_struct();
        let mut i: usize = 0;
        assert(ts.take(0) =~= Seq::<(Seq<char>, TypstTerm)>::empty());
        while i < fields.len()
            invariant
                i <= fields@.len(),
                ts == field_terms_of(fields@),
                ts.len() == fields@.len(),
                forall|j: int|
                    0 <= j < fields@.len() ==> #[trigger] ts[j] == (
                        fields@[j].0@,
                        fields@[j].1.term(),
                    ),
                c.first == (i == 0),
                self.output@ == start + "("@ + render_fields(ts.take(i as int)),
                self._level == old(self)._level,
            decreases fields@.len() - i,
        {
            let field = &fields[i];
            proof { assert(decreases_to!(*v => fields@[i as int].1)); }
            c.serialize_field(self, field.0.as_str(), &field.1);
            assert(ts.take(i + 1).drop_last() =~= ts.take(i as int));
            i = i + 1;
        }
        assert(ts.take(i as int) =~= ts);
        c.end(self);
            },
            _ => {},
        }
    }

    #[verifier::loop_isolation(false)]
    fn serialize_struct_variant_value(&mut self, v: &TypstValue)
        requires
            v is StructVariant,
        ensures
            final(self).output@ == old(self).output@ + render(v.term()),
            final(self)._level == old(self)._level,
        decreases v, 0nat,
    {
        match v {
            TypstValue::StructVariant(name, fields) => {
        let ghost start = self.output@;
        let ghost ts = field_terms_of(fields@);
        proof { lemma_field_terms_of(fields@); }
        let mut c = self.serialize_struct_variant(name.as_str());
        let mut i: usize = 0;
        assert(ts.take(0) =~= Seq::<(Seq<char>, TypstTerm)>::empty());
        while i < fields.len()
            invariant
                i <= fields@.len(),
                ts == field_terms_of(fields@),
                ts.len() == fields@.len(),
                forall|j: int|
                    0 <= j < fields@.len() ==> #[trigger] ts[j] == (
                        fields@[j].0@,
                        fields@[j].1.term(),
                    ),
                c.first == (i == 0),
                self.output@ == start + name@ + ": ("@ + render_fields(ts.take(i as int)),
                self._level == old(self)._level,
            decreases fields@.len() - i,
        {
            let field = &fields[i];
            proof { assert(decreases_to!(*v => fields@[i as int].1)); }
            c.serialize_field(self, field.0.as_str(), &field.1);
            assert(ts.take(i + 1).drop_last() =~= ts.take(i as int));
            i = i + 1;
        }
        assert(ts.take(i as int) =~= ts);
        c.end(self);
            },
            _ => {},
        }
    }

}

/// Names whether `regex::Regex::new` accepts a pattern.
pub uninterp spec fn regex_pattern_is_valid(pattern: Seq<char>) -> bool;

/// Names the text that `Regex::replace_all` gives for a pattern, a haystack
/// and a replacement string (with `$n` group references expanded).
pub uninterp spec fn regex_replace_all_text(
    pattern: Seq<char>,
    haystack: Seq<char>,
    replacement: Seq<char>,
) -> Seq<char>;

/// Where the first `)"` stands in `t`, provided no line break comes before
/// it: the shortest argument text that the lazy `(.*?)` of the date pattern
/// can capture before the closing `)"`.
pub open spec fn date_call_close(t: Seq<char>) -> Option<nat>
    decreases t.len(),
{
    if t.len() < 2 {
        None
    } else if t[0] == ')' && t[1] == '"' {
        Some(0)
    } else if t[0] == '\n' {
        None
    } else {
        match date_call_close(t.skip(1)) {
            Some(k) => Some(k + 1),
            None => None,
        }
    }
}

/// A closing `)"` found in a text lies within it.
pub proof fn lemma_date_call_close_bound(t: Seq<char>)
    ensures
        date_call_close(t) matches Some(k) ==> k + 2 <= t.len(),
    decreases t.len(),
{
    if t.len() >= 2 && !(t[0] == ')' && t[1] == '"') && t[0] != '\n' {
        lemma_date_call_close_bound(t.skip(1));
    }
}

/// The text with its quoted date calls unquoted. Scanning from the left:
/// where `"datetime(` starts and a `)"` follows on the same line, the
/// shortest such call `"datetime(A)"` becomes `datetime(A)` and the scan goes
/// on after it; any other character is kept.
pub open spec fn unquote_dates(s: Seq<char>) -> Seq<char>
    decreases s.len(),
{
    if s.len() == 0 {
        s
    } else if s.len() >= 10 && s.take(10) == "\"datetime("@ && date_call_close(s.skip(10)) is Some {
        let k = date_call_close(s.skip(10)).unwrap() as int;
        proof {
            lemma_date_call_close_bound(s.skip(10));
        }
        "datetime("@ + s.subrange(10, 10 + k) + ")"@ + unquote_dates(s.skip(12 + k))
    } else {
        seq![s[0]] + unquote_dates(s.skip(1))
    }
}

/// Compiles `pattern` with `regex::Regex::new` and, when that succeeds,
/// replaces every non-overlapping match in `haystack` by `replacement` with
/// `Regex::replace_all`. Trusted: the result is `None` exactly when the
/// pattern is refused, and otherwise the replaced text, named as a function of
/// the three texts. For the date pattern and its replacement, the text is
/// the one that `unquote_dates` states, as the regex documentation gives it:
/// the pattern is valid, matches are leftmost-first and taken left to right
/// without overlap, the lazy `.*?` takes as few characters as it can and
/// never a line break, and `$1` stands for the first group.
#[verifier::external_body]
fn regex_replace_all(pattern: &str, haystack: &str, replacement: &str) -> (r: Option<String>)
    ensures
        r is Some <==> regex_pattern_is_valid(pattern@),
        r matches Some(t) ==> t@ == regex_replace_all_text(pattern@, haystack@, replacement@),
        pattern@ == datetime_pattern() && replacement@ == datetime_replacement() ==> r is Some,
        pattern@ == datetime_pattern() && replacement@ == datetime_replacement() ==> r.unwrap()@ == unquote_dates(haystack@),
{
    match regex::Regex::new(pattern) {
        Ok(re) => Some(re.replace_all(haystack, replacement).into_owned()),
        Err(_) => None,
    }
}

/// Matches a quoted date call, capturing what stands inside its parentheses.
pub open spec fn datetime_pattern() -> Seq<char> {
    "\"datetime\\((.*?)\\)\""@
}

/// Puts the captured arguments back into an unquoted date call.
pub open spec fn datetime_replacement() -> Seq<char> {
    "datetime($1)"@
}

/// The final Typst text of a term: its rendering with every quoted
/// `"datetime(...)"` string turned into a bare `datetime(...)` call.
pub open spec fn typst_text(t: TypstTerm) -> Seq<char> {
    unquote_dates(render(t))
}

/// Renders a value as Typst text, then unquotes the date calls in it.
pub fn to_typst_string(value: &TypstValue) -> (r: Result<String, TypstSerError>)
    ensures
        r matches Ok(t) && t@ == typst_text(value.term()),
{
    let mut serializer = TypstSerializer::new();
    serializer.serialize(value);
    match regex_replace_all("\"datetime\\((.*?)\\)\"", serializer.output.as_str(), "datetime($1)") {
        Some(t) => Ok(t),
        None => Err(TypstSerError::Message("cannot compile the date pattern".to_string())),
    }
}

/// A calendar date, written in Typst as `datetime(day: .., month: .., year: ..)`.
#[derive(Clone, Copy, Debug, PartialEq, Eq, Structural)]
pub struct TypstDateTime {
    pub day: u32,
    pub month: u32,
    pub year: i32,
}

/// The date-call text of a day, a month and a year.
pub open spec fn datetime_text(day: int, month: int, year: int) -> Seq<char> {
    "datetime(day: "@ + int_text(day) + ", month: "@ + int_text(month) + ", year: "@ + int_text(
        year,
    ) + ")"@
}

impl TypstDateTime {
    /// A date is serialized as the string of its date call; `to_typst_string`
    /// later removes the quotes around it.
    pub open spec fn typst_term(&self) -> TypstTerm {
        TypstTerm::Str(datetime_text(self.day as int, self.month as int, self.year as int))
    }

    pub fn to_typst_value(&self) -> (v: TypstValue)
        ensures
            v.term() == self.typst_term(),
    {
        let mut s = String::new();
        s.append("datetime(day: ");
        push_u64(&mut s, self.day as u64);
        s.append(", month: ");
        push_u64(&mut s, self.month as u64);
        s.append(", year: ");
        push_i64(&mut s, self.year as i64);
        s.append(")");
        TypstValue::Str(s)
    }
}

/// A struct value with 0 named field(s), in order.
pub fn struct0() -> (r: TypstValue)
    ensures
        r.term() == TypstTerm::Struct(Seq::<(Seq<char>, TypstTerm)>::empty()),
{
    let mut fields: Vec<(String, TypstValue)> = Vec::new();

    proof {
        lemma_field_terms_of(fields@);
        assert(field_terms_of(fields@) =~= Seq::<(Seq<char>, TypstTerm)>::empty());
    }
    TypstValue::Struct(fields)
}

/// A struct value with 1 named field(s), in order.
pub fn struct1(n0: &str, v0: TypstValue) -> (r: TypstValue)
    ensures
        r.term() == TypstTerm::Struct(seq![(n0@, v0.term())]),
{
    let mut fields: Vec<(String, TypstValue)> = Vec::new();
    fields.push((n0.to_string(), v0));
    proof {
        lemma_field_terms_of(fields@);
        assert(field_terms_of(fields@) =~= seq![(n0@, v0.term())]);
    }
    TypstValue::Struct(fields)
}

/// A struct value with 2 named field(s), in order.
pub fn struct2(n0: &str, v0: TypstValue, n1: &str, v1: TypstValue) -> (r: TypstValue)
    ensures
        r.term() == TypstTerm::Struct(seq![(n0@, v0.term()), (n1@, v1.term())]),
{
    let mut fields: Vec<(String, TypstValue)> = Vec::new();
    fields.push((n0.to_string(), v0));
    fields.push((n1.to_string(), v1));
    proof {
        lemma_field_terms_of(fields@);
        assert(field_terms_of(fields@) =~= seq![(n0@, v0.term()), (n1@, v1.term())]);
    }
    TypstValue::Struct(fields)
}

/// A struct value with 3 named field(s), in order.
pub fn struct3(n0: &str, v0: TypstValue, n1: &str, v1: TypstValue, n2: &str, v2: TypstValue) -> (r: TypstValue)
    ensures
        r.term() == TypstTerm::Struct(seq![(n0@, v0.term()), (n1@, v1.term()), (n2@, v2.term())]),
{
    let mut fields: Vec<(String, TypstValue)> = Vec::new();
    fields.push((n0.to_string(), v0));
    fields.push((n1.to_string(), v1));
    fields.push((n2.to_string(), v2));
    proof {
        lemma_field_terms_of(fields@);
        assert(field_terms_of(fields@) =~= seq![(n0@, v0.term()), (n1@, v1.term()), (n2@, v2.term())]);
    }
    TypstValue::Struct(fields)
}

/// A struct value with 4 named field(s), in order.
pub fn struct4(n0: &str, v0: TypstValue, n1: &str, v1: TypstValue, n2: &str, v2: TypstValue, n3: &str, v3: TypstValue) -> (r: TypstValue)
    ensures
        r.term() == TypstTerm::Struct(seq![(n0@, v0.term()), (n1@, v1.term()), (n2@, v2.term()), (n3@, v3.term())]),
{
    let mut fields: Vec<(String, TypstValue)> = Vec::new();
    fields.push((n0.to_string(), v0));
    fields.push((n1.to_string(), v1));
    fields.push((n2.to_string(), v2));
    fields.push((n3.to_string(), v3));
    proof {
        lemma_field_terms_of(fields@);
        assert(field_terms_of(fields@) =~= seq![(n0@, v0.term()), (n1@, v1.term()), (n2@, v2.term()), (n3@, v3.term())]);
    }
    TypstValue::Struct(fields)
}

/// A struct value with 5 named field(s), in order.
pub fn struct5(n0: &str, v0: TypstValue, n1: &str, v1: TypstValue, n2: &str, v2: TypstValue, n3: &str, v3: TypstValue, n4: &str, v4: TypstValue) -> (r: TypstValue)
    ensures
        r.term() == TypstTerm::Struct(seq![(n0@, v0.term()), (n1@, v1.term()), (n2@, v2.term()), (n3@, v3.term()), (n4@, v4.term())]),
{
    let mut fields: Vec<(String, TypstValue)> = Vec::new();
    fields.push((n0.to_string(), v0));
    fields.push((n1.to_string(), v1));
    fields.push((n2.to_string(), v2));
    fields.push((n3.to_string(), v3));
    fields.push((n4.to_string(), v4));
    proof {
        lemma_field_terms_of(fields@);
        assert(field_terms_of(fields@) =~= seq![(n0@, v0.term()), (n1@, v1.term()), (n2@, v2.term()), (n3@, v3.term()), (n4@, v4.term())]);
    }
    TypstValue::Struct(fields)
}

/// A struct value with 6 named field(s), in order.
pub fn struct6(n0: &str, v0: TypstValue, n1: &str, v1: TypstValue, n2: &str, v2: TypstValue, n3: &str, v3: TypstValue, n4: &str, v4: TypstValue, n5: &str, v5: TypstValue) -> (r: TypstValue)
    ensures
        r.term() == TypstTerm::Struct(seq![(n0@, v0.term()), (n1@, v1.term()), (n2@, v2.term()), (n3@, v3.term()), (n4@, v4.term()), (n5@, v5.term())]),
{
    let mut fields: Vec<(String, TypstValue)> = Vec::new();
    fields.push((n0.to_string(), v0));
    fields.push((n1.to_string(), v1));
    fields.push((n2.to_string(), v2));
    fields.push((n3.to_string(), v3));
    fields.push((n4.to_string(), v4));
    fields.push((n5.to_string(), v5));
    proof {
        lemma_field_terms_of(fields@);
        assert(field_terms_of(fields@) =~= seq![(n0@, v0.term()), (n1@, v1.term()), (n2@, v2.term()), (n3@, v3.term()), (n4@, v4.term()), (n5@, v5.term())]);
    }
    TypstValue::Struct(fields)
}

/// A string value.
pub fn str_value(s: &String) -> (r: TypstValue)
    ensures
        r.term() == TypstTerm::Str(s@),
{
    TypstValue::Str(s.clone())
}

/// The term of an optional string: the string, or `null`.
pub open spec fn opt_str_term(o: Option<String>) -> TypstTerm {
    match o {
        Some(s) => TypstTerm::Str(s@),
        None => TypstTerm::Null,
    }
}

/// An optional string value: the string, or `null`.
pub fn opt_str_value(o: &Option<String>) -> (r: TypstValue)
    ensures
        r.term() == opt_str_term(*o),
{
    match o {
        Some(s) => TypstValue::Str(s.clone()),
        None => TypstValue::Null,
    }
}

/// The terms of a list of strings.
pub open spec fn str_list_terms(items: Seq<String>) -> Seq<TypstTerm> {
    Seq::new(items.len(), |i: int| TypstTerm::Str(items[i]@))
}

/// A list value of strings.
pub fn str_list_value(items: &Vec<String>) -> (r: TypstValue)
    ensures
        r.term() == TypstTerm::List(str_list_terms(items@)),
{
    let mut out: Vec<TypstValue> = Vec::new();
    let mut i: usize = 0;
    while i < items.len()
        invariant
            i <= items@.len(),
            out@.len() == i,
            forall|j: int| 0 <= j < i ==> #[trigger] out@[j].term() == TypstTerm::Str(items@[j]@),
        decreases items@.len() - i,
    {
        out.push(TypstValue::Str(items[i].clone()));
        i = i + 1;
    }
    proof {
        lemma_terms_of(out@);
        assert(terms_of(out@) =~= str_list_terms(items@));
    }
    TypstValue::List(out)
}

/// The one-character string of `c`.
#[verifier::external_body]
fn char_text(c: char) -> (r: String)
    ensures
        r@ == seq![c],
{
    c.to_string()
}

/// A date is written as the call `datetime(day: D, month: M, year: Y)` with
/// its own day, month and year in decimal.
pub proof fn law_date_call_names_its_fields(d: TypstDateTime)
    ensures
        d.typst_term() == TypstTerm::Str(
            "datetime(day: "@ + decimal(d.day as nat) + ", month: "@ + decimal(d.month as nat) + ", year: "@
                + int_text(d.year as int) + ")"@,
        ),
{
}

} // verus!
