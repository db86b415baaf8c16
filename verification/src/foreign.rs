//! Descriptors, the binding registry, and the envelope that wraps a native
//! value inside memory owned by the virtual machine.

use vstd::prelude::*;
use vstd::string::*;
use vstd::utf8::encode_utf8;
use crate::util::{bytes_eq, c_string, c_string_spec, from_str, nul_free};
use crate::marshal::{build_sig, lemma_sig_text_nul_free, sig_text, CallForm, Param};

verus! {

/// What identifies a bindable class: module name and class name, as bytes.
pub type ClassKey = (Seq<u8>, Seq<u8>);

/// What identifies one method overload: module, class, staticness, signature.
pub type MethodKey = (Seq<u8>, Seq<u8>, bool, Seq<u8>);

/// Key of a bound method.
#[derive(Debug, Clone, PartialEq, Eq, Hash)]
pub struct MethodDesc {
    pub module: Vec<u8>,
    pub class_name: Vec<u8>,
    pub is_static: bool,
    pub signature: Vec<u8>,
}

/// Key of a bound class.
#[derive(Debug, Clone, PartialEq, Eq, Hash)]
pub struct ClassDesc {
    pub module: Vec<u8>,
    pub class_name: Vec<u8>,
}

impl View for ClassDesc {
    type V = ClassKey;

    open spec fn view(&self) -> ClassKey {
        (self.module@, self.class_name@)
    }
}

impl View for MethodDesc {
    type V = MethodKey;

    open spec fn view(&self) -> MethodKey {
        (self.module@, self.class_name@, self.is_static, self.signature@)
    }
}

impl ClassDesc {
    /// Structural equality of two class keys.
    pub fn same(&self, other: &ClassDesc) -> (r: bool)
        ensures
            r == (self@ == other@),
    {
        bytes_eq(&self.module, &other.module) && bytes_eq(&self.class_name, &other.class_name)
    }
}

impl MethodDesc {
    /// Structural equality of two method keys.
    pub fn same(&self, other: &MethodDesc) -> (r: bool)
        ensures
            r == (self@ == other@),
    {
        self.is_static == other.is_static && bytes_eq(&self.module, &other.module) && bytes_eq(
            &self.class_name,
            &other.class_name,
        ) && bytes_eq(&self.signature, &other.signature)
    }
}

/// The two leading fields of an envelope, as read from memory before the
/// payload is interpreted as any particular type.
#[derive(Debug, Clone, Copy, PartialEq, Eq, Structural)]
pub struct Header {
    pub valid: bool,
    pub id: usize,
}

/// What the allocate callback of a class writes into fresh foreign memory.
#[derive(Debug, Clone, Copy, PartialEq, Eq, Structural)]
pub enum Allocate {
    /// A valid envelope tagged `id`, holding the default payload.
    Fresh { id: usize },
    /// The sentinel written for a class that has no binding.
    Invalid,
}

/// The allocate/finalize pair of a bound class. `finalize` is the tag that
/// the finalizer insists on.
#[derive(Debug, Clone, Copy, PartialEq, Eq, Structural)]
pub struct ClassBinding {
    pub allocate: Allocate,
    pub finalize: usize,
}

/// The native callback of a bound method, named by its handle in the
/// embedding's callback table.
#[derive(Debug, Clone, Copy, PartialEq, Eq, Structural)]
pub struct MethodBinding {
    pub callback: usize,
}

/// A native type that scripts may construct and pass around.
pub trait WrenClass: Default + Sized {
    const ID: usize;
    const MODULE: &'static str;
    const CLASS: &'static str;
}

impl WrenClass for () {
    const ID: usize = usize::MAX;
    const MODULE: &'static str = "<none>";
    const CLASS: &'static str = "Unit";
}

/// The unit type carries the reserved tag that stands for "no type".
pub proof fn lemma_reserved_tag()
    ensures
        <() as WrenClass>::ID == usize::MAX,
{
}

/// The pair handed to the virtual machine for a class without a binding.
pub open spec fn invalid_binding() -> ClassBinding {
    ClassBinding { allocate: Allocate::Invalid, finalize: usize::MAX }
}

/// The pair that binds the native type `T`.
pub open spec fn binding_of<T: WrenClass>() -> ClassBinding {
    ClassBinding { allocate: Allocate::Fresh { id: T::ID }, finalize: T::ID }
}

/// The header of the envelope that `allocate` writes.
pub open spec fn allocated_header(allocate: Allocate) -> Header {
    match allocate {
        Allocate::Fresh { id } => Header { valid: true, id },
        Allocate::Invalid => Header { valid: false, id: usize::MAX },
    }
}

/// The finalizer for `T` goes through on `header`: the tags agree.
pub open spec fn finalizer_accepts<T: WrenClass>(header: Header) -> bool {
    header.id == T::ID
}

/// A native callback together with the shape of its parameter list.
#[derive(Debug, Clone, PartialEq, Eq)]
pub struct ForeignMethod {
    pub signature: String,
    pub params: Vec<Param>,
    pub method: MethodBinding,
}

/// Describes a native callback: derives the signature from the call form and
/// the number of declared parameters, the receiver being the first of them.
pub fn wren_fn(form: CallForm, params: Vec<Param>, callback: usize) -> (r: ForeignMethod)
    ensures
        r.signature@ == sig_text(form, params@.len()),
        nul_free(encode_utf8(r.signature@)),
        r.params == params,
        r.method == (MethodBinding { callback }),
{
    let signature = build_sig(form, params.len());
    proof {
        lemma_sig_text_nul_free(form, params@.len());
    }
    ForeignMethod { signature, params, method: MethodBinding { callback } }
}

/// The in-memory representation of a native value of type `T`.
pub struct ForeignClass<T: WrenClass> {
    valid: bool,
    id: usize,
    data: T,
}

impl<T: WrenClass> ForeignClass<T> {
    /// The validity flag.
    pub closed spec fn valid(&self) -> bool {
        self.valid
    }

    /// The type tag.
    pub closed spec fn id(&self) -> usize {
        self.id
    }

    /// The payload.
    pub closed spec fn data(&self) -> T {
        self.data
    }

    /// The tag is the one of the type the envelope is held as.
    pub open spec fn wf(&self) -> bool {
        self.id() == T::ID
    }

    /// The flag and the tag together.
    pub open spec fn header_spec(&self) -> Header {
        Header { valid: self.valid(), id: self.id() }
    }

    /// Wraps `data` in a valid envelope tagged for `T`.
    pub fn new(data: T) -> (r: Self)
        ensures
            r.valid(),
            r.id() == T::ID,
            r.data() == data,
    {
        ForeignClass { valid: true, data, id: T::ID }
    }

    pub fn get_data(&self) -> (r: &T)
        ensures
            *r == self.data(),
    {
        &self.data
    }

    pub fn get_data_mut(&mut self) -> (r: &mut T)
        ensures
            *r == old(self).data(),
            final(self).data() == *final(r),
            final(self).valid() == old(self).valid(),
            final(self).id() == old(self).id(),
    {
        &mut self.data
    }

    pub fn get_id(&self) -> (r: usize)
        ensures
            r == self.id(),
    {
        self.id
    }

    pub fn is_valid(&self) -> (r: bool)
        ensures
            r == self.valid(),
    {
        self.valid
    }

    /// The flag and the tag, for checks made before the payload is touched.
    pub fn header(&self) -> (r: Header)
        ensures
            r == self.header_spec(),
    {
        Header { valid: self.valid, id: self.id }
    }

    /// Takes the payload out for destruction.
    pub fn into_data(self) -> (r: T)
        ensures
            r == self.data(),
    {
        self.data
    }
}

impl<T: WrenClass> Default for ForeignClass<T> {
    fn default() -> (r: Self)
        ensures
            r.valid(),
            r.id() == T::ID,
            call_ensures(T::default, (), r.data()),
    {
        ForeignClass { data: T::default(), id: T::ID, valid: true }
    }
}

/// The binding pair for `T`.
pub fn bind_foreign<T: WrenClass>() -> (r: ClassBinding)
    ensures
        r == binding_of::<T>(),
{
    ClassBinding { allocate: Allocate::Fresh { id: T::ID }, finalize: T::ID }
}

/// The envelope that the allocate callback of `T` writes: valid, tagged for
/// `T`, holding a payload that `T::default` gave.
pub fn alloc_foreign_class<T: WrenClass>() -> (r: ForeignClass<T>)
    ensures
        r.wf(),
        r.header_spec() == allocated_header(binding_of::<T>().allocate),
        call_ensures(T::default, (), r.data()),
{
    Default::default()
}

/// The sentinel envelope written for a class without a binding.
pub fn alloc_invalid_class() -> (r: ForeignClass<()>)
    ensures
        r.wf(),
        r.header_spec() == (Header { valid: false, id: usize::MAX }),
        r.header_spec() == allocated_header(invalid_binding().allocate),
{
    let mut data: ForeignClass<()> = Default::default();
    data.valid = false;
    data
}

/// Whether the finalizer for `T` may run on an envelope with this header. A
/// refusal means the wrong finalizer was handed out, which is fatal.
pub fn check_finalize<T: WrenClass>(header: Header) -> (r: bool)
    ensures
        r == finalizer_accepts::<T>(header),
{
    header.id == T::ID
}

/// Finalizes an envelope: hands the payload over so that it is destroyed
/// exactly once.
pub fn finalize_foreign_class<T: WrenClass>(envelope: ForeignClass<T>) -> (r: T)
    requires
        finalizer_accepts::<T>(envelope.header_spec()),
    ensures
        r == envelope.data(),
{
    envelope.into_data()
}

/// The finalizer of the right type always goes through on a well-formed
/// envelope, and the finalizer of a type with another tag never does.
pub proof fn lemma_finalize_tag<T: WrenClass, U: WrenClass>(envelope: ForeignClass<T>)
    requires
        envelope.wf(),
    ensures
        finalizer_accepts::<T>(envelope.header_spec()),
        U::ID != T::ID ==> !finalizer_accepts::<U>(envelope.header_spec()),
{
}

/// No key occurs twice in `pairs`.
pub open spec fn distinct_keys<K, V>(pairs: Seq<(K, V)>) -> bool {
    forall|i: int, j: int| 0 <= i < j < pairs.len() ==> pairs[i].0 != pairs[j].0
}

/// The mapping that a list of key/value pairs stands for.
pub open spec fn as_map<K, V>(pairs: Seq<(K, V)>) -> Map<K, V>
    decreases pairs.len(),
{
    if pairs.len() == 0 {
        Map::empty()
    } else {
        as_map(pairs.drop_last()).insert(pairs.last().0, pairs.last().1)
    }
}

proof fn lemma_as_map_absent<K, V>(pairs: Seq<(K, V)>, key: K)
    requires
        forall|i: int| 0 <= i < pairs.len() ==> pairs[i].0 != key,
    ensures
        !as_map(pairs).contains_key(key),
    decreases pairs.len(),
{
    if pairs.len() > 0 {
        lemma_as_map_absent(pairs.drop_last(), key);
    }
}

proof fn lemma_as_map_at<K, V>(pairs: Seq<(K, V)>, i: int)
    requires
        distinct_keys(pairs),
        0 <= i < pairs.len(),
    ensures
        as_map(pairs).contains_key(pairs[i].0),
        as_map(pairs)[pairs[i].0] == pairs[i].1,
    decreases pairs.len(),
{
    if i < pairs.len() - 1 {
        lemma_as_map_at(pairs.drop_last(), i);
    }
}

proof fn lemma_as_map_update<K, V>(pairs: Seq<(K, V)>, i: int, value: V)
    requires
        distinct_keys(pairs),
        0 <= i < pairs.len(),
    ensures
        as_map(pairs.update(i, (pairs[i].0, value))) == as_map(pairs).insert(pairs[i].0, value),
    decreases pairs.len(),
{
    let updated = pairs.update(i, (pairs[i].0, value));
    if i == pairs.len() - 1 {
        assert(updated.drop_last() =~= pairs.drop_last());
    } else {
        lemma_as_map_update(pairs.drop_last(), i, value);
        assert(updated.drop_last() =~= pairs.drop_last().update(i, (pairs[i].0, value)));
    }
    assert(as_map(updated) =~= as_map(pairs).insert(pairs[i].0, value));
}

proof fn lemma_as_map_push<K, V>(pairs: Seq<(K, V)>, key: K, value: V)
    ensures
        as_map(pairs.push((key, value))) == as_map(pairs).insert(key, value),
{
    assert(pairs.push((key, value)).drop_last() =~= pairs);
}

/// One class registration.
#[derive(Debug)]
pub struct ClassEntry {
    pub desc: ClassDesc,
    pub binding: ClassBinding,
}

/// One method registration.
#[derive(Debug)]
pub struct MethodEntry {
    pub desc: MethodDesc,
    pub binding: MethodBinding,
}

/// The binding registry: which native behaviour stands behind each foreign
/// class and method that a script may declare.
#[derive(Debug)]
pub struct Foreign {
    classes: Vec<ClassEntry>,
    methods: Vec<MethodEntry>,
}

impl Foreign {
    /// The class registrations as key/binding pairs, in storage order.
    pub closed spec fn class_pairs(&self) -> Seq<(ClassKey, ClassBinding)> {
        self.classes@.map_values(|e: ClassEntry| (e.desc@, e.binding))
    }

    /// The method registrations as key/binding pairs, in storage order.
    pub closed spec fn method_pairs(&self) -> Seq<(MethodKey, MethodBinding)> {
        self.methods@.map_values(|e: MethodEntry| (e.desc@, e.binding))
    }

    /// Every key is stored once.
    pub closed spec fn wf(&self) -> bool {
        distinct_keys(self.class_pairs()) && distinct_keys(self.method_pairs())
    }

    /// The class bindings, by key.
    pub closed spec fn classes(&self) -> Map<ClassKey, ClassBinding> {
        as_map(self.class_pairs())
    }

    /// The method bindings, by key.
    pub closed spec fn methods(&self) -> Map<MethodKey, MethodBinding> {
        as_map(self.method_pairs())
    }

    /// What a lookup of the class `key` answers.
    pub open spec fn class_binding(&self, key: ClassKey) -> Option<ClassBinding> {
        if self.classes().contains_key(key) {
            Some(self.classes()[key])
        } else {
            None
        }
    }

    /// What a lookup of the method `key` answers.
    pub open spec fn method_binding(&self, key: MethodKey) -> Option<MethodBinding> {
        if self.methods().contains_key(key) {
            Some(self.methods()[key])
        } else {
            None
        }
    }

    /// A registry without bindings.
    pub fn new() -> (r: Foreign)
        ensures
            r.wf(),
            r.classes() == Map::<ClassKey, ClassBinding>::empty(),
            r.methods() == Map::<MethodKey, MethodBinding>::empty(),
    {
        Foreign { classes: Vec::new(), methods: Vec::new() }
    }

    fn find_class(&self, desc: &ClassDesc) -> (r: Option<usize>)
        ensures
            match r {
                Some(i) => i < self.class_pairs().len() && self.class_pairs()[i as int].0 == desc@,
                None => forall|j: int|
                    0 <= j < self.class_pairs().len() ==> self.class_pairs()[j].0 != desc@,
            },
    {
        let mut i: usize = 0;
        while i < self.classes.len()
            invariant
                i <= self.classes@.len(),
                self.class_pairs().len() == self.classes@.len(),
                forall|j: int| 0 <= j < i ==> self.class_pairs()[j].0 != desc@,
            decreases self.classes.len() - i,
        {
            if self.classes[i].desc.same(desc) {
                return Some(i);
            }
            i += 1;
        }
        None
    }

    fn find_method(&self, desc: &MethodDesc) -> (r: Option<usize>)
        ensures
            match r {
                Some(i) => i < self.method_pairs().len() && self.method_pairs()[i as int].0
                    == desc@,
                None => forall|j: int|
                    0 <= j < self.method_pairs().len() ==> self.method_pairs()[j].0 != desc@,
            },
    {
        let mut i: usize = 0;
        while i < self.methods.len()
            invariant
                i <= self.methods@.len(),
                self.method_pairs().len() == self.methods@.len(),
                forall|j: int| 0 <= j < i ==> self.method_pairs()[j].0 != desc@,
            decreases self.methods.len() - i,
        {
            if self.methods[i].desc.same(desc) {
                return Some(i);
            }
            i += 1;
        }
        None
    }

    /// Binds a class: inserts the pair for `desc`, replacing an earlier one.
    pub fn register_class(&mut self, desc: ClassDesc, binding: ClassBinding)
        requires
            old(self).wf(),
        ensures
            final(self).wf(),
            final(self).classes() == old(self).classes().insert(desc@, binding),
            final(self).methods() == old(self).methods(),
    {
        let ghost before = self.class_pairs();
        match self.find_class(&desc) {
            Some(i) => {
                self.classes.set(i, ClassEntry { desc, binding });
                proof {
                    assert(self.class_pairs() =~= before.update(
                        i as int,
                        (before[i as int].0, binding),
                    ));
                    lemma_as_map_update(before, i as int, binding);
                }
            },
            None => {
                self.classes.push(ClassEntry { desc, binding });
                proof {
                    assert(self.class_pairs() =~= before.push((desc@, binding)));
                    lemma_as_map_push(before, desc@, binding);
                }
            },
        }
    }

    /// Binds a method: inserts the callback for `desc`, replacing an earlier
    /// one.
    pub fn register_method(&mut self, desc: MethodDesc, binding: MethodBinding)
        requires
            old(self).wf(),
        ensures
            final(self).wf(),
            final(self).methods() == old(self).methods().insert(desc@, binding),
            final(self).classes() == old(self).classes(),
    {
        let ghost before = self.method_pairs();
        match self.find_method(&desc) {
            Some(i) => {
                self.methods.set(i, MethodEntry { desc, binding });
                proof {
                    assert(self.method_pairs() =~= before.update(
                        i as int,
                        (before[i as int].0, binding),
                    ));
                    lemma_as_map_update(before, i as int, binding);
                }
            },
            None => {
                self.methods.push(MethodEntry { desc, binding });
                proof {
                    assert(self.method_pairs() =~= before.push((desc@, binding)));
                    lemma_as_map_push(before, desc@, binding);
                }
            },
        }
    }

    /// The binding registered for a class, if any.
    pub fn lookup_class(&self, desc: &ClassDesc) -> (r: Option<ClassBinding>)
        requires
            self.wf(),
        ensures
            r == self.class_binding(desc@),
    {
        match self.find_class(desc) {
            Some(i) => {
                proof {
                    lemma_as_map_at(self.class_pairs(), i as int);
                }
                Some(self.classes[i].binding)
            },
            None => {
                proof {
                    lemma_as_map_absent(self.class_pairs(), desc@);
                }
                None
            },
        }
    }

    /// The callback registered for a method, if any.
    pub fn lookup_method(&self, desc: &MethodDesc) -> (r: Option<MethodBinding>)
        requires
            self.wf(),
        ensures
            r == self.method_binding(desc@),
    {
        match self.find_method(desc) {
            Some(i) => {
                proof {
                    lemma_as_map_at(self.method_pairs(), i as int);
                }
                Some(self.methods[i].binding)
            },
            None => {
                proof {
                    lemma_as_map_absent(self.method_pairs(), desc@);
                }
                None
            },
        }
    }

    /// Binds the native type `T` under its own module and class name.
    pub fn bind_class<T: WrenClass>(&mut self)
        requires
            old(self).wf(),
            nul_free(T::MODULE.spec_bytes()),
            nul_free(T::CLASS.spec_bytes()),
        ensures
            final(self).wf(),
            final(self).classes() == old(self).classes().insert(
                (T::MODULE.spec_bytes(), T::CLASS.spec_bytes()),
                binding_of::<T>(),
            ),
            final(self).methods() == old(self).methods(),
    {
        let desc = ClassDesc { module: from_str(T::MODULE), class_name: from_str(T::CLASS) };
        self.register_class(desc, bind_foreign::<T>());
    }

    /// Binds a method under the signature made of its name and the suffix
    /// that its parameter list gives.
    pub fn bind_method(
        &mut self,
        module: &str,
        class_name: &str,
        is_static: bool,
        name: &str,
        method: ForeignMethod,
    )
        requires
            old(self).wf(),
            nul_free(module.spec_bytes()),
            nul_free(class_name.spec_bytes()),
            nul_free(name.spec_bytes()),
            nul_free(encode_utf8(method.signature@)),
        ensures
            final(self).wf(),
            final(self).methods() == old(self).methods().insert(
                (
                    module.spec_bytes(),
                    class_name.spec_bytes(),
                    is_static,
                    name.spec_bytes() + encode_utf8(method.signature@),
                ),
                method.method,
            ),
            final(self).classes() == old(self).classes(),
    {
        let mut signature = from_str(name);
        let mut suffix = from_str(method.signature.as_str());
        signature.append(&mut suffix);
        let desc = MethodDesc {
            module: from_str(module),
            class_name: from_str(class_name),
            is_static,
            signature,
        };
        self.register_method(desc, method.method);
    }
}

impl Default for Foreign {
    fn default() -> (r: Foreign)
        ensures
            r.wf(),
            r.classes() == Map::<ClassKey, ClassBinding>::empty(),
            r.methods() == Map::<MethodKey, MethodBinding>::empty(),
    {
        Foreign::new()
    }
}

/// What the class-binding hook answers: the registered pair, or the sentinel
/// pair where the class has no binding.
pub fn bind_foreign_class(foreigns: &Foreign, module: &[u8], class_name: &[u8]) -> (r: ClassBinding)
    requires
        foreigns.wf(),
    ensures
        r == (match foreigns.class_binding((c_string_spec(module@), c_string_spec(class_name@))) {
            Some(binding) => binding,
            None => invalid_binding(),
        }),
{
    let desc = ClassDesc { module: c_string(module), class_name: c_string(class_name) };
    match foreigns.lookup_class(&desc) {
        Some(binding) => binding,
        None => ClassBinding { allocate: Allocate::Invalid, finalize: usize::MAX },
    }
}

/// What the method-binding hook answers: the registered callback, or none.
pub fn bind_foreign_method(
    foreigns: &Foreign,
    module: &[u8],
    class_name: &[u8],
    is_static: bool,
    signature: &[u8],
) -> (r: Option<MethodBinding>)
    requires
        foreigns.wf(),
    ensures
        r == foreigns.method_binding(
            (
                c_string_spec(module@),
                c_string_spec(class_name@),
                is_static,
                c_string_spec(signature@),
            ),
        ),
{
    let desc = MethodDesc {
        module: c_string(module),
        class_name: c_string(class_name),
        is_static,
        signature: c_string(signature),
    };
    foreigns.lookup_method(&desc)
}

/// A class lookup answers with the binding last registered for the key:
/// after two registrations under one key only the second is visible, as if
/// the first had never been made.
pub proof fn lemma_last_class_registration_wins(
    start: Foreign,
    once: Foreign,
    twice: Foreign,
    key: ClassKey,
    first: ClassBinding,
    second: ClassBinding,
)
    requires
        once.classes() == start.classes().insert(key, first),
        twice.classes() == once.classes().insert(key, second),
    ensures
        once.class_binding(key) == Some(first),
        twice.class_binding(key) == Some(second),
        twice.classes() == start.classes().insert(key, second),
{
    assert(start.classes().insert(key, first).insert(key, second) =~= start.classes().insert(
        key,
        second,
    ));
}

/// A registration leaves the answer for every other class key as it was.
pub proof fn lemma_class_registration_is_local(
    start: Foreign,
    after: Foreign,
    key: ClassKey,
    binding: ClassBinding,
    other: ClassKey,
)
    requires
        after.classes() == start.classes().insert(key, binding),
        other != key,
    ensures
        after.class_binding(other) == start.class_binding(other),
{
}

/// A method lookup answers with the callback last registered for the key,
/// and two keys that differ in any part are separate entries.
pub proof fn lemma_last_method_registration_wins(
    start: Foreign,
    once: Foreign,
    twice: Foreign,
    key: MethodKey,
    first: MethodBinding,
    second: MethodBinding,
    other: MethodKey,
)
    requires
        once.methods() == start.methods().insert(key, first),
        twice.methods() == once.methods().insert(key, second),
    ensures
        once.method_binding(key) == Some(first),
        twice.method_binding(key) == Some(second),
        twice.methods() == start.methods().insert(key, second),
        other != key ==> twice.method_binding(other) == start.method_binding(other),
{
    assert(start.methods().insert(key, first).insert(key, second) =~= start.methods().insert(
        key,
        second,
    ));
}

} // verus!
