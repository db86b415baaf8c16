//! The slot protocol: signatures, arity and kind checks, extraction of
//! arguments and encoding of results.

use vstd::prelude::*;
use vstd::string::*;
use vstd::utf8::{encode_utf8, is_ascii_chars, is_ascii_chars_encode_utf8};
use crate::foreign::{ClassBinding, ClassDesc, ClassKey, Foreign, Header};
use crate::util::{
    c_string_spec, decimal, decoded_text, first_nul, first_nul_position,
    lemma_first_nul_position, lemma_text_round_trip, lossy_string, nul_free, push_decimal,
};

verus! {

/// How a method is called in script source.
#[derive(Debug, Clone, Copy, PartialEq, Eq, Structural)]
pub enum CallForm {
    /// `name(a, b)`
    Parens,
    /// `[a, b]`
    Brackets,
    /// No delimiters.
    Bare,
}

/// The declared kind of a parameter.
#[derive(Debug, Clone, PartialEq, Eq)]
pub enum ParamKind {
    Bool,
    Num,
    Str,
    /// A native object whose envelope carries the tag `id`.
    Foreign { id: usize, label: String },
}

/// One declared parameter.
#[derive(Debug, Clone, PartialEq, Eq)]
pub enum Param {
    /// Takes a slot, binds nothing.
    Ignored,
    /// Is checked against its kind and bound.
    Named(ParamKind),
}

/// The kind of value that a slot holds at run time.
#[derive(Debug, Clone, Copy, PartialEq, Eq, Structural)]
pub enum SlotType {
    Bool,
    Num,
    Foreign,
    List,
    Null,
    Text,
    Unknown,
}

/// What a slot holds. A number travels as the bit pattern of its double; a
/// foreign object as the header of its envelope; text as the bytes the
/// virtual machine stores.
#[derive(Debug, Clone, PartialEq, Eq)]
pub enum SlotValue {
    Bool(bool),
    Num(u64),
    Foreign(Header),
    List,
    Null,
    Text(Vec<u8>),
    Unknown,
}

/// A native value extracted from a slot.
#[derive(Debug, Clone, PartialEq, Eq)]
pub enum Bound {
    Ignored,
    Bool(bool),
    Num(u64),
    Str(String),
    /// The payload of the envelope in slot `slot`, checked for validity and
    /// tag.
    Foreign { slot: usize },
}

/// The mathematical value of a `Bound`.
pub enum BoundSpec {
    Ignored,
    Bool(bool),
    Num(u64),
    Str(Seq<char>),
    Foreign { slot: int },
}

impl View for Bound {
    type V = BoundSpec;

    open spec fn view(&self) -> BoundSpec {
        match *self {
            Bound::Ignored => BoundSpec::Ignored,
            Bound::Bool(b) => BoundSpec::Bool(b),
            Bound::Num(bits) => BoundSpec::Num(bits),
            Bound::Str(text) => BoundSpec::Str(text@),
            Bound::Foreign { slot } => BoundSpec::Foreign { slot: slot as int },
        }
    }
}

/// A native result on its way back into slot 0.
#[derive(Debug, Clone, PartialEq, Eq)]
pub enum Returned {
    /// The method declares no result: the slot is set to null.
    Unit,
    /// The method leaves the slot as it is.
    Untouched,
    Bool(bool),
    Num(u64),
    Str(String),
    /// A native object of the class named by the descriptor.
    Foreign(ClassDesc),
}

/// What is to be written into slot 0.
#[derive(Debug, Clone, PartialEq, Eq)]
pub enum SlotWrite {
    Null,
    Keep,
    Bool(bool),
    Num(u64),
    Text(Vec<u8>),
    /// A fresh envelope around the returned object.
    NewForeign,
}

/// The mathematical value of a `SlotWrite`.
pub enum SlotWriteSpec {
    Null,
    Keep,
    Bool(bool),
    Num(u64),
    Text(Seq<u8>),
    NewForeign,
}

impl View for SlotWrite {
    type V = SlotWriteSpec;

    open spec fn view(&self) -> SlotWriteSpec {
        match *self {
            SlotWrite::Null => SlotWriteSpec::Null,
            SlotWrite::Keep => SlotWriteSpec::Keep,
            SlotWrite::Bool(b) => SlotWriteSpec::Bool(b),
            SlotWrite::Num(bits) => SlotWriteSpec::Num(bits),
            SlotWrite::Text(bytes) => SlotWriteSpec::Text(bytes@),
            SlotWrite::NewForeign => SlotWriteSpec::NewForeign,
        }
    }
}

/// The kind of a slot value.
pub open spec fn slot_type_of(value: SlotValue) -> SlotType {
    match value {
        SlotValue::Bool(_) => SlotType::Bool,
        SlotValue::Num(_) => SlotType::Num,
        SlotValue::Foreign(_) => SlotType::Foreign,
        SlotValue::List => SlotType::List,
        SlotValue::Null => SlotType::Null,
        SlotValue::Text(_) => SlotType::Text,
        SlotValue::Unknown => SlotType::Unknown,
    }
}

/// The slot kind that a parameter of kind `kind` asks for.
pub open spec fn expected_type(kind: ParamKind) -> SlotType {
    match kind {
        ParamKind::Bool => SlotType::Bool,
        ParamKind::Num => SlotType::Num,
        ParamKind::Str => SlotType::Text,
        ParamKind::Foreign { .. } => SlotType::Foreign,
    }
}

/// How a parameter kind is written in a diagnostic.
pub open spec fn kind_name(kind: ParamKind) -> Seq<char> {
    match kind {
        ParamKind::Bool => "bool"@,
        ParamKind::Num => "f64"@,
        ParamKind::Str => "String"@,
        ParamKind::Foreign { id, label } => "["@ + label@ + "]"@,
    }
}

/// How a slot kind is written in a diagnostic.
pub open spec fn slot_label(t: SlotType) -> Seq<char> {
    match t {
        SlotType::Bool => "WREN_TYPE_BOOL"@,
        SlotType::Num => "WREN_TYPE_NUM"@,
        SlotType::Foreign => "WREN_TYPE_FOREIGN"@,
        SlotType::List => "WREN_TYPE_LIST"@,
        SlotType::Null => "WREN_TYPE_NULL"@,
        SlotType::Text => "WREN_TYPE_STRING"@,
        SlotType::Unknown => "WREN_TYPE_UNKNOWN"@,
    }
}

/// The abort message for a call with too few slots.
pub open spec fn arity_message(num_vars: int, total_slots: int) -> Seq<char> {
    "invalid number of arguments. expecting "@ + decimal(num_vars) + ", got "@ + decimal(
        total_slots - 1,
    ) + "."@
}

/// The abort message for a slot of the wrong kind.
pub open spec fn kind_message(kind: ParamKind, slot: int, observed: SlotType) -> Seq<char> {
    "expecting "@ + kind_name(kind) + " for variable "@ + decimal(slot) + ", got "@
        + slot_label(observed) + "."@
}

/// The abort message for an envelope written by the sentinel allocator.
pub open spec fn unbound_message() -> Seq<char> {
    "attempt to use unbound foreign class"@
}

/// The abort message for an envelope that carries another type's tag.
pub open spec fn tag_message(label: Seq<char>) -> Seq<char> {
    "foreign object with invalid type id for "@ + label
}

/// The abort message for text that holds a terminator byte.
pub open spec fn encoding_message(position: int) -> Seq<char> {
    "cstring convert error: nul byte found in provided data at position: "@ + decimal(position)
}

/// The abort message for a returned object whose class has no binding.
pub open spec fn unbound_return_message() -> Seq<char> {
    "attempt to return unbound rust object"@
}

/// The arity check: a call goes on exactly when it supplies at least as many
/// slots as the method declares parameters.
pub open spec fn arity_check(num_vars: int, total_slots: int) -> Result<(), Seq<char>> {
    if num_vars > total_slots {
        Err(arity_message(num_vars, total_slots))
    } else {
        Ok(())
    }
}

/// The kind check of one slot.
pub open spec fn kind_check(kind: ParamKind, slot: int, observed: SlotType) -> Result<
    (),
    Seq<char>,
> {
    if observed == expected_type(kind) {
        Ok(())
    } else {
        Err(kind_message(kind, slot, observed))
    }
}

/// The access check on an envelope that is to be read as the type tagged
/// `id`: it must be valid, and carry that tag.
pub open spec fn access_check(header: Header, id: usize, label: Seq<char>) -> Result<
    (),
    Seq<char>,
> {
    if !header.valid {
        Err(unbound_message())
    } else if header.id != id {
        Err(tag_message(label))
    } else {
        Ok(())
    }
}

/// What extracting a value of the kind asked for gives: primitives are
/// copied, text is decoded from the C string in the slot, and a foreign
/// object is bound by its slot once its envelope has passed the access check.
pub open spec fn extract(kind: ParamKind, slot: int, value: SlotValue) -> Result<
    BoundSpec,
    Seq<char>,
> {
    match value {
        SlotValue::Bool(b) => Ok(BoundSpec::Bool(b)),
        SlotValue::Num(bits) => Ok(BoundSpec::Num(bits)),
        SlotValue::Text(bytes) => Ok(BoundSpec::Str(decoded_text(c_string_spec(bytes@)))),
        SlotValue::Foreign(header) => match access_check(header, kind->id, kind->label@) {
            Ok(_) => Ok(BoundSpec::Foreign { slot }),
            Err(message) => Err(message),
        },
        _ => Ok(BoundSpec::Ignored),
    }
}

/// What binding one parameter to its slot gives: the kind check first, then
/// the extraction.
pub open spec fn bind_one(param: Param, slot: int, value: SlotValue) -> Result<
    BoundSpec,
    Seq<char>,
> {
    match param {
        Param::Ignored => Ok(BoundSpec::Ignored),
        Param::Named(kind) => match kind_check(kind, slot, slot_type_of(value)) {
            Err(message) => Err(message),
            Ok(_) => extract(kind, slot, value),
        },
    }
}

/// Binding the first `n` parameters in order; the first failure ends it.
pub open spec fn bind_prefix(params: Seq<Param>, slots: Seq<SlotValue>, n: nat) -> Result<
    Seq<BoundSpec>,
    Seq<char>,
>
    decreases n,
{
    if n == 0 {
        Ok(Seq::empty())
    } else {
        match bind_prefix(params, slots, (n - 1) as nat) {
            Err(message) => Err(message),
            Ok(bound) => match bind_one(params[n - 1], n - 1, slots[n - 1]) {
                Err(message) => Err(message),
                Ok(value) => Ok(bound.push(value)),
            },
        }
    }
}

/// What a callback's entry gives: the arity check, then every parameter bound
/// to the slot at its position.
pub open spec fn bind_all(params: Seq<Param>, slots: Seq<SlotValue>) -> Result<
    Seq<BoundSpec>,
    Seq<char>,
> {
    match arity_check(params.len() as int, slots.len() as int) {
        Err(message) => Err(message),
        Ok(_) => bind_prefix(params, slots, params.len()),
    }
}

/// What encoding a native result gives.
pub open spec fn encode_spec(value: Returned, classes: Map<ClassKey, ClassBinding>) -> Result<
    SlotWriteSpec,
    Seq<char>,
> {
    match value {
        Returned::Unit => Ok(SlotWriteSpec::Null),
        Returned::Untouched => Ok(SlotWriteSpec::Keep),
        Returned::Bool(b) => Ok(SlotWriteSpec::Bool(b)),
        Returned::Num(bits) => Ok(SlotWriteSpec::Num(bits)),
        Returned::Str(text) => if nul_free(encode_utf8(text@)) {
            Ok(SlotWriteSpec::Text(encode_utf8(text@)))
        } else {
            Err(encoding_message(first_nul_position(encode_utf8(text@))))
        },
        Returned::Foreign(desc) => if classes.contains_key(desc@) {
            Ok(SlotWriteSpec::NewForeign)
        } else {
            Err(unbound_return_message())
        },
    }
}

/// The text of a result that carries a message.
pub open spec fn message_view<T>(r: Result<T, String>) -> Result<T, Seq<char>> {
    match r {
        Ok(value) => Ok(value),
        Err(message) => Err(message@),
    }
}

/// The mathematical value of the outcome of binding one parameter.
pub open spec fn bound_view(r: Result<Bound, String>) -> Result<BoundSpec, Seq<char>> {
    match r {
        Ok(value) => Ok(value@),
        Err(message) => Err(message@),
    }
}

/// The mathematical value of the outcome of binding a parameter list.
pub open spec fn bounds_view(r: Result<Vec<Bound>, String>) -> Result<Seq<BoundSpec>, Seq<char>> {
    match r {
        Ok(values) => Ok(values@.map_values(|b: Bound| b@)),
        Err(message) => Err(message@),
    }
}

/// The mathematical value of the outcome of encoding a result.
pub open spec fn write_view(r: Result<SlotWrite, String>) -> Result<SlotWriteSpec, Seq<char>> {
    match r {
        Ok(value) => Ok(value@),
        Err(message) => Err(message@),
    }
}

/// `n` placeholders separated by commas.
pub open spec fn placeholders(n: nat) -> Seq<char>
    decreases n,
{
    if n == 0 {
        seq![]
    } else if n == 1 {
        seq!['_']
    } else {
        seq!['_', ','] + placeholders((n - 1) as nat)
    }
}

/// The signature suffix of a method with `num_vars` declared parameters, the
/// receiver included: one placeholder for each parameter after the receiver,
/// inside the delimiters of the call form.
pub open spec fn sig_text(form: CallForm, num_vars: nat) -> Seq<char> {
    let inner = placeholders(if num_vars == 0 { 0 } else { (num_vars - 1) as nat });
    match form {
        CallForm::Parens => seq!['('] + inner + seq![')'],
        CallForm::Brackets => seq!['['] + inner + seq![']'],
        CallForm::Bare => inner,
    }
}

/// One of the characters that signatures are made of.
pub open spec fn is_sig_char(c: char) -> bool {
    c == '_' || c == ',' || c == '(' || c == ')' || c == '[' || c == ']'
}

proof fn lemma_placeholders_chars(n: nat)
    ensures
        forall|i: int| 0 <= i < placeholders(n).len() ==> is_sig_char(#[trigger] placeholders(n)[i]),
    decreases n,
{
    if n > 1 {
        let rest = placeholders((n - 1) as nat);
        lemma_placeholders_chars((n - 1) as nat);
        assert forall|i: int| 0 <= i < placeholders(n).len() implies is_sig_char(
            #[trigger] placeholders(n)[i],
        ) by {
            if i >= 2 {
                assert(placeholders(n)[i] == rest[i - 2]);
            }
        }
    }
}

/// A signature suffix never holds a terminator byte, so it can always be
/// part of a registry key.
pub proof fn lemma_sig_text_nul_free(form: CallForm, num_vars: nat)
    ensures
        nul_free(encode_utf8(sig_text(form, num_vars))),
{
    let text = sig_text(form, num_vars);
    lemma_placeholders_chars(if num_vars == 0 { 0 } else { (num_vars - 1) as nat });
    assert forall|i: int| 0 <= i < text.len() implies is_sig_char(#[trigger] text[i]) by {}
    assert(is_ascii_chars(text));
    is_ascii_chars_encode_utf8(text);
    let bytes = encode_utf8(text);
    assert forall|i: int| 0 <= i < bytes.len() implies bytes[i] != 0 by {
        assert(is_sig_char(text[i]));
        assert(text[i] as u8 == bytes[i]);
    }
}

/// Appends `n` comma-separated placeholders to `out`.
fn push_placeholders(out: &mut String, n: usize)
    ensures
        final(out)@ == old(out)@ + placeholders(n as nat),
{
    proof {
        reveal_strlit("_");
        reveal_strlit("_,");
    }
    let mut left: usize = n;
    while left > 1
        invariant
            out@ + placeholders(left as nat) == old(out)@ + placeholders(n as nat),
        decreases left,
    {
        let ghost before = out@;
        out.append("_,");
        proof {
            reveal_strlit("_,");
        }
        assert("_,"@ =~= seq!['_', ',']);
        assert(placeholders(left as nat) == seq!['_', ','] + placeholders((left - 1) as nat));
        assert(before + placeholders(left as nat) =~= out@ + placeholders((left - 1) as nat));
        left -= 1;
    }
    if left == 1 {
        let ghost before = out@;
        out.append("_");
        assert("_"@ =~= seq!['_']);
        assert(before + placeholders(1) =~= out@);
    } else {
        assert(out@ + placeholders(0) =~= out@);
    }
}

/// Builds the signature suffix for a call form and a parameter count.
pub fn build_sig(form: CallForm, num_vars: usize) -> (r: String)
    ensures
        r@ == sig_text(form, num_vars as nat),
{
    proof {
        reveal_strlit("(");
        reveal_strlit(")");
        reveal_strlit("[");
        reveal_strlit("]");
    }
    let args: usize = if num_vars == 0 { 0 } else { num_vars - 1 };
    let mut out = String::new();
    match form {
        CallForm::Parens => {
            out.append("(");
            push_placeholders(&mut out, args);
            out.append(")");
        },
        CallForm::Brackets => {
            out.append("[");
            push_placeholders(&mut out, args);
            out.append("]");
        },
        CallForm::Bare => {
            push_placeholders(&mut out, args);
        },
    }
    assert(out@ =~= sig_text(form, num_vars as nat));
    out
}

/// The kind of the value in a slot.
pub fn slot_type(value: &SlotValue) -> (r: SlotType)
    ensures
        r == slot_type_of(*value),
{
    match value {
        SlotValue::Bool(_) => SlotType::Bool,
        SlotValue::Num(_) => SlotType::Num,
        SlotValue::Foreign(_) => SlotType::Foreign,
        SlotValue::List => SlotType::List,
        SlotValue::Null => SlotType::Null,
        SlotValue::Text(_) => SlotType::Text,
        SlotValue::Unknown => SlotType::Unknown,
    }
}

/// The slot kind that a parameter kind asks for.
pub fn expected_slot_type(kind: &ParamKind) -> (r: SlotType)
    ensures
        r == expected_type(*kind),
{
    match kind {
        ParamKind::Bool => SlotType::Bool,
        ParamKind::Num => SlotType::Num,
        ParamKind::Str => SlotType::Text,
        ParamKind::Foreign { .. } => SlotType::Foreign,
    }
}

fn push_kind_name(out: &mut String, kind: &ParamKind)
    ensures
        final(out)@ == old(out)@ + kind_name(*kind),
{
    match kind {
        ParamKind::Bool => out.append("bool"),
        ParamKind::Num => out.append("f64"),
        ParamKind::Str => out.append("String"),
        ParamKind::Foreign { id, label } => {
            out.append("[");
            out.append(label.as_str());
            out.append("]");
            assert(final(out)@ =~= old(out)@ + kind_name(*kind));
        },
    }
}

fn push_slot_label(out: &mut String, t: SlotType)
    ensures
        final(out)@ == old(out)@ + slot_label(t),
{
    match t {
        SlotType::Bool => out.append("WREN_TYPE_BOOL"),
        SlotType::Num => out.append("WREN_TYPE_NUM"),
        SlotType::Foreign => out.append("WREN_TYPE_FOREIGN"),
        SlotType::List => out.append("WREN_TYPE_LIST"),
        SlotType::Null => out.append("WREN_TYPE_NULL"),
        SlotType::Text => out.append("WREN_TYPE_STRING"),
        SlotType::Unknown => out.append("WREN_TYPE_UNKNOWN"),
    }
}

/// Checks that a call supplies enough slots for `num_vars` declared
/// parameters; the message of a refusal gives the expected count and the
/// number of arguments that came.
pub fn check_arity(num_vars: usize, total_slots: i32) -> (r: Result<(), String>)
    ensures
        message_view(r) == arity_check(num_vars as int, total_slots as int),
{
    if total_slots >= 0 && num_vars <= total_slots as usize {
        return Ok(());
    }
    let mut out = String::new();
    out.append("invalid number of arguments. expecting ");
    if num_vars <= i64::MAX as usize {
        push_decimal(&mut out, num_vars as i64);
    } else {
        crate::util::push_digits(&mut out, num_vars as u64);
    }
    out.append(", got ");
    push_decimal(&mut out, total_slots as i64 - 1);
    out.append(".");
    assert(out@ =~= arity_message(num_vars as int, total_slots as int));
    Err(out)
}

/// Checks the kind of the value in slot `slot` against a parameter's kind;
/// the message of a refusal names the slot and both kinds.
pub fn check_slot(kind: &ParamKind, slot: usize, observed: SlotType) -> (r: Result<(), String>)
    ensures
        message_view(r) == kind_check(*kind, slot as int, observed),
{
    if observed == expected_slot_type(kind) {
        return Ok(());
    }
    let mut out = String::new();
    out.append("expecting ");
    push_kind_name(&mut out, kind);
    out.append(" for variable ");
    crate::util::push_digits(&mut out, slot as u64);
    out.append(", got ");
    push_slot_label(&mut out, observed);
    out.append(".");
    assert(out@ =~= kind_message(*kind, slot as int, observed));
    Err(out)
}

/// Checks that an envelope may be read as the type tagged `id`.
pub fn check_access(header: Header, id: usize, label: &str) -> (r: Result<(), String>)
    ensures
        message_view(r) == access_check(header, id, label@),
{
    if !header.valid {
        let mut out = String::new();
        out.append("attempt to use unbound foreign class");
        assert(out@ =~= unbound_message());
        return Err(out);
    }
    if header.id != id {
        let mut out = String::new();
        out.append("foreign object with invalid type id for ");
        out.append(label);
        assert(out@ =~= tag_message(label@));
        return Err(out);
    }
    Ok(())
}

/// Binds one parameter to the value in its slot.
pub fn bind_var(param: &Param, slot: usize, value: &SlotValue) -> (r: Result<Bound, String>)
    ensures
        bound_view(r) == bind_one(*param, slot as int, *value),
{
    match param {
        Param::Ignored => Ok(Bound::Ignored),
        Param::Named(kind) => {
            match check_slot(kind, slot, slot_type(value)) {
                Err(message) => {
                    return Err(message);
                },
                Ok(_) => {},
            }
            match value {
                SlotValue::Bool(b) => Ok(Bound::Bool(*b)),
                SlotValue::Num(bits) => Ok(Bound::Num(*bits)),
                SlotValue::Text(bytes) => Ok(Bound::Str(lossy_string(bytes.as_slice()))),
                SlotValue::Foreign(header) => match kind {
                    ParamKind::Foreign { id, label } => match check_access(
                        *header,
                        *id,
                        label.as_str(),
                    ) {
                        Ok(_) => Ok(Bound::Foreign { slot }),
                        Err(message) => Err(message),
                    },
                    _ => Ok(Bound::Ignored),
                },
                _ => Ok(Bound::Ignored),
            }
        },
    }
}

proof fn lemma_bind_prefix_err(params: Seq<Param>, slots: Seq<SlotValue>, i: nat, n: nat)
    requires
        i <= n,
        bind_prefix(params, slots, i) is Err,
    ensures
        bind_prefix(params, slots, n) == bind_prefix(params, slots, i),
    decreases n,
{
    if i < n {
        lemma_bind_prefix_err(params, slots, i, (n - 1) as nat);
    }
}

/// Runs the entry of a callback: the arity check, then kind check and
/// extraction for each declared parameter, in order.
pub fn bind_vars(params: &Vec<Param>, slots: &Vec<SlotValue>) -> (r: Result<Vec<Bound>, String>)
    requires
        slots@.len() <= i32::MAX,
    ensures
        bounds_view(r) == bind_all(params@, slots@),
{
    match check_arity(params.len(), slots.len() as i32) {
        Err(message) => {
            return Err(message);
        },
        Ok(_) => {},
    }
    let mut out: Vec<Bound> = Vec::new();
    let mut i: usize = 0;
    assert(out@.map_values(|b: Bound| b@) =~= Seq::<BoundSpec>::empty());
    while i < params.len()
        invariant
            i <= params@.len() <= slots@.len(),
            bind_prefix(params@, slots@, i as nat) == Ok::<Seq<BoundSpec>, Seq<char>>(
                out@.map_values(|b: Bound| b@),
            ),
        decreases params.len() - i,
    {
        let ghost before = out@.map_values(|b: Bound| b@);
        match bind_var(&params[i], i, &slots[i]) {
            Err(message) => {
                proof {
                    lemma_bind_prefix_err(params@, slots@, (i + 1) as nat, params@.len());
                }
                return Err(message);
            },
            Ok(value) => {
                out.push(value);
                assert(out@.map_values(|b: Bound| b@) =~= before.push(value@));
            },
        }
        i += 1;
    }
    Ok(out)
}

/// Encodes a native result for slot 0. Text with a terminator byte and an
/// object of a class without a binding are refused.
pub fn encode_return(value: &Returned, foreigns: &Foreign) -> (r: Result<SlotWrite, String>)
    requires
        foreigns.wf(),
    ensures
        write_view(r) == encode_spec(*value, foreigns.classes()),
{
    match value {
        Returned::Unit => Ok(SlotWrite::Null),
        Returned::Untouched => Ok(SlotWrite::Keep),
        Returned::Bool(b) => Ok(SlotWrite::Bool(*b)),
        Returned::Num(bits) => Ok(SlotWrite::Num(*bits)),
        Returned::Str(text) => {
            let bytes = text.as_str().as_bytes_vec();
            match first_nul(bytes.as_slice()) {
                None => Ok(SlotWrite::Text(bytes)),
                Some(position) => {
                    proof {
                        lemma_first_nul_position(bytes@, position as int);
                    }
                    let mut out = String::new();
                    out.append("cstring convert error: nul byte found in provided data at position: ");
                    crate::util::push_digits(&mut out, position as u64);
                    assert(out@ =~= encoding_message(position as int));
                    Err(out)
                },
            }
        },
        Returned::Foreign(desc) => match foreigns.lookup_class(desc) {
            Some(_) => Ok(SlotWrite::NewForeign),
            None => {
                let mut out = String::new();
                out.append("attempt to return unbound rust object");
                assert(out@ =~= unbound_return_message());
                Err(out)
            },
        },
    }
}

/// A call with fewer slots than declared parameters is always refused, with
/// the message that gives both counts; a call with exactly as many slots
/// passes on to the kind checks.
pub proof fn lemma_arity(params: Seq<Param>, slots: Seq<SlotValue>)
    ensures
        slots.len() < params.len() ==> bind_all(params, slots) == Err::<Seq<BoundSpec>, Seq<char>>(
            arity_message(params.len() as int, slots.len() as int),
        ),
        slots.len() == params.len() ==> bind_all(params, slots) == bind_prefix(
            params,
            slots,
            params.len(),
        ),
{
}

/// A text parameter fed anything but text is refused with the message that
/// names the slot and both kinds. Fed the encoding of a text without a
/// terminator byte, it binds that very text.
pub proof fn lemma_text_param(slot: int, value: SlotValue, text: Seq<char>)
    ensures
        slot_type_of(value) != SlotType::Text ==> bind_one(
            Param::Named(ParamKind::Str),
            slot,
            value,
        ) == Err::<BoundSpec, Seq<char>>(
            kind_message(ParamKind::Str, slot, slot_type_of(value)),
        ),
        (value matches SlotValue::Text(bytes) && bytes@ == encode_utf8(text) && nul_free(
            encode_utf8(text),
        )) ==> bind_one(Param::Named(ParamKind::Str), slot, value) == Ok::<BoundSpec, Seq<char>>(
            BoundSpec::Str(text),
        ),
{
    if nul_free(encode_utf8(text)) {
        lemma_text_round_trip(text);
    }
}

/// Text without a terminator byte, returned and then read back as an
/// argument, is the same text.
pub proof fn lemma_return_then_bind(
    text: String,
    classes: Map<ClassKey, ClassBinding>,
    slot: int,
    value: SlotValue,
)
    requires
        nul_free(encode_utf8(text@)),
        value matches SlotValue::Text(bytes) && encode_spec(Returned::Str(text), classes) == Ok::<
            SlotWriteSpec,
            Seq<char>,
        >(SlotWriteSpec::Text(bytes@)),
    ensures
        bind_one(Param::Named(ParamKind::Str), slot, value) == Ok::<BoundSpec, Seq<char>>(
            BoundSpec::Str(text@),
        ),
{
    lemma_text_round_trip(text@);
}

/// Returning an object whose class has no binding is always refused.
pub proof fn lemma_unbound_return(desc: ClassDesc, classes: Map<ClassKey, ClassBinding>)
    requires
        !classes.contains_key(desc@),
    ensures
        encode_spec(Returned::Foreign(desc), classes) == Err::<SlotWriteSpec, Seq<char>>(
            unbound_return_message(),
        ),
{
}

} // verus!
