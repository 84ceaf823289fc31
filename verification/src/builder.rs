//! The builder: synthesizes, for one annotated class, the source-text
//! fragments that adapt it to the foreign object runtime's protocol —
//! handle conversion, handle extraction, identity accessors, checked
//! downcast, base allocation, per-property accessors, and the lazily
//! initialized type descriptor with its reentrancy guard.
//!
//! Every fragment is a pure function of the class's name and properties;
//! the contracts below pin the emitted text exactly.

use vstd::prelude::*;

use crate::extractor::{Method, MethodV, Property, PropertyV};

verus! {

/// What `str::to_lowercase` returns for a string.
pub uninterp spec fn lower_of(s: Seq<char>) -> Seq<char>;

/// Relies on `str::to_lowercase`: the lowercase equivalent depends on the
/// characters of the string alone.
#[verifier::external_body]
fn to_lowercase(s: &str) -> (r: String)
    ensures
        r@ == lower_of(s@),
{
    s.to_lowercase()
}

/// One annotated class, ready for code synthesis: its identifier, the
/// properties its accessors are generated for, and the candidate methods
/// (extracted, but not yet consumed by generation).
pub struct Builder {
    pub ident: String,
    pub fields: Vec<Property>,
    pub methods: Vec<Method>,
}

/// View of [`Builder`].
#[verifier::ext_equal]
pub struct BuilderV {
    pub ident: Seq<char>,
    pub fields: Seq<PropertyV>,
    pub methods: Seq<MethodV>,
}

impl DeepView for Builder {
    type V = BuilderV;

    open spec fn deep_view(&self) -> BuilderV {
        BuilderV {
            ident: self.ident@,
            fields: self.fields.deep_view(),
            methods: self.methods.deep_view(),
        }
    }
}

/// The handle-conversion fragment: the class as a source of foreign
/// handles, cloning by runtime reference counting.
pub open spec fn to_py_object_text(name: Seq<char>) -> Seq<char> {
    "impl ::cpython::ToPyObject for "@ + name + " {
    type ObjectType = "@ + name + ";

    #[inline]
    fn to_py_object(&self, py: ::cpython::Python) -> Self::ObjectType {
        ::cpython::PyClone::clone_ref(self, py)
    }

    #[inline]
    fn into_py_object(self, _py: ::cpython::Python) -> Self::ObjectType {
        self
    }

    #[inline]
    fn with_borrowed_ptr<F, R>(&self, _py: ::cpython::Python, f: F) -> R
    where
        F: FnOnce(*mut ::cpython::_detail::ffi::PyObject) -> R,
    {
        f(::cpython::PythonObject::as_object(self).as_ptr())
    }
}

"@
}

/// The handle-extraction fragment: owned and borrowed conversion from a
/// generic handle, through the class's checked downcast.
pub open spec fn from_py_object_text(name: Seq<char>) -> Seq<char> {
    "impl<'source> ::cpython::FromPyObject<'source> for "@ + name + " {
    #[inline]
    fn extract(py: ::cpython::Python, obj: &'source ::cpython::PyObject) -> ::cpython::PyResult<"@
        + name + "> {
        use ::cpython::PyClone;
        Ok(obj.clone_ref(py).cast_into::<"@ + name + ">(py)?)
    }
}

impl<'source> ::cpython::FromPyObject<'source> for &'source "@ + name + " {
    #[inline]
    fn extract(py: ::cpython::Python, obj: &'source ::cpython::PyObject) -> ::cpython::PyResult<&'source "@
        + name + "> {
        Ok(obj.cast_as::<"@ + name + ">(py)?)
    }
}

"@
}

/// The core identity fragment: the class's own handle by reference and by
/// value, and the unchecked downcast constructors used after a type check
/// has already passed.
pub open spec fn python_object_text(name: Seq<char>) -> Seq<char> {
    "impl ::cpython::PythonObject for "@ + name + " {
    #[inline]
    fn as_object(&self) -> &::cpython::PyObject {
        &self._unsafe_inner
    }

    #[inline]
    fn into_object(self) -> ::cpython::PyObject {
        self._unsafe_inner
    }

    #[inline]
    unsafe fn unchecked_downcast_from(obj: ::cpython::PyObject) -> Self {
        "@ + name + " { _unsafe_inner: obj }
    }

    #[inline]
    unsafe fn unchecked_downcast_borrow_from<'a>(obj: &'a ::cpython::PyObject) -> &'a Self {
        ::std::mem::transmute(obj)
    }
}

"@
}

/// The checked-downcast fragment: owned and borrowed downcasts that
/// succeed exactly when the handle is an instance of the class's
/// registered type descriptor.
pub open spec fn checked_downcast_text(name: Seq<char>) -> Seq<char> {
    "impl ::cpython::PythonObjectWithCheckedDowncast for "@ + name + " {
    #[inline]
    fn downcast_from<'p>(py: ::cpython::Python<'p>, obj: ::cpython::PyObject) -> Result<"@ + name
        + ", ::cpython::PythonObjectDowncastError<'p>> {
        if py.get_type::<"@ + name + ">().is_instance(py, &obj) {
            Ok("@ + name + " { _unsafe_inner: obj })
        } else {
            Err(::cpython::PythonObjectDowncastError(py))
        }
    }

    #[inline]
    fn downcast_borrow_from<'a, 'p>(py: ::cpython::Python<'p>, obj: &'a ::cpython::PyObject) -> Result<&'a "@
        + name + ", ::cpython::PythonObjectDowncastError<'p>> {
        if py.get_type::<"@ + name + ">().is_instance(py, obj) {
            unsafe { Ok(::std::mem::transmute(obj)) }
        } else {
            Err(::cpython::PythonObjectDowncastError(py))
        }
    }
}

"@
}

/// The property types, comma-separated, as the initializer tuple's type
/// list.
pub open spec fn comma_types_text(fs: Seq<PropertyV>) -> Seq<char>
    decreases fs.len(),
{
    if fs.len() == 0 {
        Seq::empty()
    } else {
        let rest = comma_types_text(fs.drop_last());
        if fs.len() == 1 {
            rest + fs.last().ty
        } else {
            rest + ", "@ + fs.last().ty
        }
    }
}

/// The property names, comma-separated.
pub open spec fn comma_names_text(fs: Seq<PropertyV>) -> Seq<char>
    decreases fs.len(),
{
    if fs.len() == 0 {
        Seq::empty()
    } else {
        let rest = comma_names_text(fs.drop_last());
        if fs.len() == 1 {
            rest + fs.last().name
        } else {
            rest + ", "@ + fs.last().name
        }
    }
}

/// The `name: type` argument declarations, comma-separated.
pub open spec fn decl_args_text(fs: Seq<PropertyV>) -> Seq<char>
    decreases fs.len(),
{
    if fs.len() == 0 {
        Seq::empty()
    } else {
        let rest = decl_args_text(fs.drop_last());
        if fs.len() == 1 {
            rest + fs.last().name + ": "@ + fs.last().ty
        } else {
            rest + ", "@ + fs.last().name + ": "@ + fs.last().ty
        }
    }
}

/// The base-allocation fragment: the storage footprint of the base handle,
/// allocation from the initializer tuple — which reserves storage but does
/// not populate the field values — and deallocation.
pub open spec fn base_object_text(name: Seq<char>, fs: Seq<PropertyV>) -> Seq<char> {
    "impl ::cpython::py_class::BaseObject for "@ + name + " {
    type InitType = ("@ + comma_types_text(fs) + ");

    #[inline]
    fn size() -> usize {
        <::cpython::PyObject as ::cpython::py_class::BaseObject>::size()
    }

    unsafe fn alloc(py: ::cpython::Python, ty: &::cpython::PyType, ("@ + comma_names_text(fs)
        + "): Self::InitType) -> ::cpython::PyResult<::cpython::PyObject> {
    }

    unsafe fn dealloc(py: ::cpython::Python, obj: *mut ::cpython::_detail::ffi::PyObject) {
    }
}

"@
}

/// One property's accessor pair: a getter returning the stored value and a
/// setter replacing it, the declared type taken verbatim.
pub open spec fn accessor_text(p: PropertyV) -> Seq<char> {
    "fn get_"@ + p.name + "(&self) -> "@ + p.ty + " {
        self."@ + p.name + "
    }

    fn set_"@ + p.name + "(&self, value: "@ + p.ty + ") {
        self."@ + p.name + " = value;
    }

    "@
}

/// The accessor pairs of all properties, in property order.
pub open spec fn accessors_text(fs: Seq<PropertyV>) -> Seq<char>
    decreases fs.len(),
{
    if fs.len() == 0 {
        Seq::empty()
    } else {
        accessors_text(fs.drop_last()) + accessor_text(fs.last())
    }
}

/// One property's registration in the descriptor's member table, under the
/// property's name.
pub open spec fn init_member_text(name: Seq<char>, p: PropertyV) -> Seq<char> {
    "dict.set_item(py, stringify!("@ + p.name + "), unsafe {
                ::cpython::py_class::members::TypeMember::<"@ + name + ">::into_descriptor("@
        + p.name + ", py, &mut TYPE_OBJECT)?
            })?;
            "@
}

/// The member-table registrations of all properties, in property order.
pub open spec fn init_members_text(name: Seq<char>, fs: Seq<PropertyV>) -> Seq<char>
    decreases fs.len(),
{
    if fs.len() == 0 {
        Seq::empty()
    } else {
        init_members_text(name, fs.drop_last()) + init_member_text(name, fs.last())
    }
}

impl Builder {
    /// The name the class is generated under.
    pub fn class_name(&self) -> (r: String)
        ensures
            r@ == self.ident@,
    {
        self.ident.clone()
    }

    /// The handle-conversion fragment.
    fn impl_to_py_object(&self) -> (r: String)
        ensures
            r@ == to_py_object_text(self.ident@),
    {
        let mut out = String::from_str("impl ::cpython::ToPyObject for ");
        out.append(self.ident.as_str());
        out.append(
            " {
    type ObjectType = ",
        );
        out.append(self.ident.as_str());
        out.append(
            ";

    #[inline]
    fn to_py_object(&self, py: ::cpython::Python) -> Self::ObjectType {
        ::cpython::PyClone::clone_ref(self, py)
    }

    #[inline]
    fn into_py_object(self, _py: ::cpython::Python) -> Self::ObjectType {
        self
    }

    #[inline]
    fn with_borrowed_ptr<F, R>(&self, _py: ::cpython::Python, f: F) -> R
    where
        F: FnOnce(*mut ::cpython::_detail::ffi::PyObject) -> R,
    {
        f(::cpython::PythonObject::as_object(self).as_ptr())
    }
}

",
        );
        out
    }

    /// The handle-extraction fragment.
    fn impl_from_py_object(&self) -> (r: String)
        ensures
            r@ == from_py_object_text(self.ident@),
    {
        let mut out = String::from_str("impl<'source> ::cpython::FromPyObject<'source> for ");
        out.append(self.ident.as_str());
        out.append(
            " {
    #[inline]
    fn extract(py: ::cpython::Python, obj: &'source ::cpython::PyObject) -> ::cpython::PyResult<",
        );
        out.append(self.ident.as_str());
        out.append(
            "> {
        use ::cpython::PyClone;
        Ok(obj.clone_ref(py).cast_into::<",
        );
        out.append(self.ident.as_str());
        out.append(
            ">(py)?)
    }
}

impl<'source> ::cpython::FromPyObject<'source> for &'source ",
        );
        out.append(self.ident.as_str());
        out.append(
            " {
    #[inline]
    fn extract(py: ::cpython::Python, obj: &'source ::cpython::PyObject) -> ::cpython::PyResult<&'source ",
        );
        out.append(self.ident.as_str());
        out.append(
            "> {
        Ok(obj.cast_as::<",
        );
        out.append(self.ident.as_str());
        out.append(
            ">(py)?)
    }
}

",
        );
        out
    }

    /// The core identity fragment.
    fn impl_python_object(&self) -> (r: String)
        ensures
            r@ == python_object_text(self.ident@),
    {
        let mut out = String::from_str("impl ::cpython::PythonObject for ");
        out.append(self.ident.as_str());
        out.append(
            " {
    #[inline]
    fn as_object(&self) -> &::cpython::PyObject {
        &self._unsafe_inner
    }

    #[inline]
    fn into_object(self) -> ::cpython::PyObject {
        self._unsafe_inner
    }

    #[inline]
    unsafe fn unchecked_downcast_from(obj: ::cpython::PyObject) -> Self {
        ",
        );
        out.append(self.ident.as_str());
        out.append(
            " { _unsafe_inner: obj }
    }

    #[inline]
    unsafe fn unchecked_downcast_borrow_from<'a>(obj: &'a ::cpython::PyObject) -> &'a Self {
        ::std::mem::transmute(obj)
    }
}

",
        );
        out
    }

    /// The checked-downcast fragment.
    fn impl_python_object_with_checked_downcast(&self) -> (r: String)
        ensures
            r@ == checked_downcast_text(self.ident@),
    {
        let mut out = String::from_str(
            "impl ::cpython::PythonObjectWithCheckedDowncast for ",
        );
        out.append(self.ident.as_str());
        out.append(
            " {
    #[inline]
    fn downcast_from<'p>(py: ::cpython::Python<'p>, obj: ::cpython::PyObject) -> Result<",
        );
        out.append(self.ident.as_str());
        out.append(
            ", ::cpython::PythonObjectDowncastError<'p>> {
        if py.get_type::<",
        );
        out.append(self.ident.as_str());
        out.append(
            ">().is_instance(py, &obj) {
            Ok(",
        );
        out.append(self.ident.as_str());
        out.append(
            " { _unsafe_inner: obj })
        } else {
            Err(::cpython::PythonObjectDowncastError(py))
        }
    }

    #[inline]
    fn downcast_borrow_from<'a, 'p>(py: ::cpython::Python<'p>, obj: &'a ::cpython::PyObject) -> Result<&'a ",
        );
        out.append(self.ident.as_str());
        out.append(
            ", ::cpython::PythonObjectDowncastError<'p>> {
        if py.get_type::<",
        );
        out.append(self.ident.as_str());
        out.append(
            ">().is_instance(py, obj) {
            unsafe { Ok(::std::mem::transmute(obj)) }
        } else {
            Err(::cpython::PythonObjectDowncastError(py))
        }
    }
}

",
        );
        out
    }

    /// The property types, comma-separated.
    fn comma_types(&self) -> (r: String)
        ensures
            r@ == comma_types_text(self.fields.deep_view()),
    {
        let mut out = String::new();
        let mut i: usize = 0;
        proof {
            assert(self.fields.deep_view().take(0) =~= Seq::<PropertyV>::empty());
        }
        while i < self.fields.len()
            invariant
                0 <= i <= self.fields.len(),
                out@ == comma_types_text(self.fields.deep_view().take(i as int)),
            decreases self.fields.len() - i,
        {
            proof {
                assert(self.fields.deep_view().take(i + 1).drop_last() =~= self.fields.deep_view()
                    .take(i as int));
                assert(self.fields.deep_view().take(i + 1).last() == self.fields.deep_view()[i as int]);
                assert(self.fields.deep_view()[i as int] == self.fields@[i as int].deep_view());
            }
            if i > 0 {
                out.append(", ");
            }
            out.append(self.fields[i].ty.as_str());
            i = i + 1;
        }
        proof {
            assert(self.fields.deep_view().take(self.fields.len() as int) =~= self.fields
                .deep_view());
        }
        out
    }

    /// The property names, comma-separated.
    fn comma_names(&self) -> (r: String)
        ensures
            r@ == comma_names_text(self.fields.deep_view()),
    {
        let mut out = String::new();
        let mut i: usize = 0;
        proof {
            assert(self.fields.deep_view().take(0) =~= Seq::<PropertyV>::empty());
        }
        while i < self.fields.len()
            invariant
                0 <= i <= self.fields.len(),
                out@ == comma_names_text(self.fields.deep_view().take(i as int)),
            decreases self.fields.len() - i,
        {
            proof {
                assert(self.fields.deep_view().take(i + 1).drop_last() =~= self.fields.deep_view()
                    .take(i as int));
                assert(self.fields.deep_view().take(i + 1).last() == self.fields.deep_view()[i as int]);
                assert(self.fields.deep_view()[i as int] == self.fields@[i as int].deep_view());
            }
            if i > 0 {
                out.append(", ");
            }
            out.append(self.fields[i].name.as_str());
            i = i + 1;
        }
        proof {
            assert(self.fields.deep_view().take(self.fields.len() as int) =~= self.fields
                .deep_view());
        }
        out
    }

    /// The `name: type` argument declarations, comma-separated.
    fn decl_args(&self) -> (r: String)
        ensures
            r@ == decl_args_text(self.fields.deep_view()),
    {
        let mut out = String::new();
        let mut i: usize = 0;
        proof {
            assert(self.fields.deep_view().take(0) =~= Seq::<PropertyV>::empty());
        }
        while i < self.fields.len()
            invariant
                0 <= i <= self.fields.len(),
                out@ == decl_args_text(self.fields.deep_view().take(i as int)),
            decreases self.fields.len() - i,
        {
            proof {
                assert(self.fields.deep_view().take(i + 1).drop_last() =~= self.fields.deep_view()
                    .take(i as int));
                assert(self.fields.deep_view().take(i + 1).last() == self.fields.deep_view()[i as int]);
                assert(self.fields.deep_view()[i as int] == self.fields@[i as int].deep_view());
            }
            if i > 0 {
                out.append(", ");
            }
            out.append(self.fields[i].name.as_str());
            out.append(": ");
            out.append(self.fields[i].ty.as_str());
            i = i + 1;
        }
        proof {
            assert(self.fields.deep_view().take(self.fields.len() as int) =~= self.fields
                .deep_view());
        }
        out
    }

    /// The base-allocation fragment.
    fn impl_base_object(&self) -> (r: String)
        ensures
            r@ == base_object_text(self.ident@, self.fields.deep_view()),
    {
        let mut out = String::from_str("impl ::cpython::py_class::BaseObject for ");
        out.append(self.ident.as_str());
        out.append(
            " {
    type InitType = (",
        );
        let types = self.comma_types();
        out.append(types.as_str());
        out.append(
            ");

    #[inline]
    fn size() -> usize {
        <::cpython::PyObject as ::cpython::py_class::BaseObject>::size()
    }

    unsafe fn alloc(py: ::cpython::Python, ty: &::cpython::PyType, (",
        );
        let names = self.comma_names();
        out.append(names.as_str());
        out.append(
            "): Self::InitType) -> ::cpython::PyResult<::cpython::PyObject> {
    }

    unsafe fn dealloc(py: ::cpython::Python, obj: *mut ::cpython::_detail::ffi::PyObject) {
    }
}

",
        );
        out
    }
}

/// The instance-construction fragment: the accessor pairs, the
/// `create_instance` constructor, and — scoped inside it — the type
/// object's static storage, its reentrancy guard, and the lazily
/// initialized type descriptor with its member table.
pub open spec fn create_instance_text(name: Seq<char>, fs: Seq<PropertyV>) -> Seq<char> {
    "impl "@ + name + " {
    "@ + accessors_text(fs) + "fn create_instance(py: ::cpython::Python, "@ + decl_args_text(fs)
        + ") -> ::cpython::PyResult<"@ + name + "> {
        let obj = unsafe {
            <"@ + name + " as ::cpython::py_class::BaseObject>::alloc(py, &py.get_type::<"@ + name
        + ">(), ("@ + comma_names_text(fs) + "))?
        };
        return Ok("@ + name + " { _unsafe_inner: obj });

        static mut TYPE_OBJECT: ::cpython::_detail::ffi::PyTypeObject = ::cpython::_detail::ffi::PyTypeObject {
            tp_dealloc: Some(::cpython::py_class::slots::tp_dealloc_callback::<"@ + name + ">),
            tp_flags: ::cpython::py_class::slots::TPFLAGS_DEFAULT,
            ..::cpython::_detail::ffi::PyTypeObject_INIT
        };
        static mut INIT_ACTIVE: bool = false;

        impl ::cpython::PythonObjectWithTypeObject for "@ + name + " {
            fn type_object(py: ::cpython::Python) -> ::cpython::PyType {
                unsafe {
                    if ::cpython::py_class::is_ready(py, &TYPE_OBJECT) {
                        ::cpython::PyType::from_type_ptr(py, &mut TYPE_OBJECT)
                    } else {
                        <"@ + name + " as ::cpython::py_class::PythonObjectFromPyClassMacro>::initialize(py)
                            .expect(concat!(\"An error occurred while initializing class \", stringify!("@
        + name + ")))
                    }
                }
            }
        }

        impl ::cpython::py_class::PythonObjectFromPyClassMacro for "@ + name + " {
            fn initialize(py: ::cpython::Python) -> ::cpython::PyResult<::cpython::PyType> {
                unsafe {
                    if ::cpython::py_class::is_ready(py, &TYPE_OBJECT) {
                        return Ok(::cpython::PyType::from_type_ptr(py, &mut TYPE_OBJECT));
                    }
                    assert!(!INIT_ACTIVE, concat!(\"Reentrancy detected: already initializing class \", stringify!("@
        + name + ")));
                    INIT_ACTIVE = true;
                    let res = init(py);
                    INIT_ACTIVE = false;
                    res
                }
            }
        }

        fn init(py: ::cpython::Python) -> ::cpython::PyResult<::cpython::PyType> {
            unsafe {
                TYPE_OBJECT.tp_name = concat!(stringify!("@ + name + "), \"\\0\").as_ptr() as *const _;
                TYPE_OBJECT.tp_basicsize = <"@ + name
        + " as ::cpython::py_class::BaseObject>::size() as ::cpython::_detail::ffi::Py_ssize_t;
            }
            let dict = ::cpython::PyDict::new(py);
            "@ + init_members_text(name, fs) + "unsafe {
                assert!(TYPE_OBJECT.tp_dict.is_null());
                TYPE_OBJECT.tp_dict = ::cpython::PythonObject::into_object(dict).steal_ptr();
            }
            unsafe {
                if ::cpython::_detail::ffi::PyType_Ready(&mut TYPE_OBJECT) == 0 {
                    Ok(::cpython::PyType::from_type_ptr(py, &mut TYPE_OBJECT))
                } else {
                    Err(::cpython::PyErr::fetch(py))
                }
            }
        }
    }
}

"@
}

/// The whole binding of one class: the seven protocol facets in their
/// fixed order — conversion, extraction, identity, checked downcast, base
/// allocation, then accessors and descriptor inside the instance fragment.
pub open spec fn binding_text(b: BuilderV) -> Seq<char> {
    to_py_object_text(b.ident) + from_py_object_text(b.ident) + python_object_text(b.ident)
        + checked_downcast_text(b.ident) + base_object_text(b.ident, b.fields)
        + create_instance_text(b.ident, b.fields)
}

/// One property's accessor pair.
fn accessor(p: &Property) -> (r: String)
    ensures
        r@ == accessor_text(p.deep_view()),
{
    let mut out = String::from_str("fn get_");
    out.append(p.name.as_str());
    out.append("(&self) -> ");
    out.append(p.ty.as_str());
    out.append(
        " {
        self.",
    );
    out.append(p.name.as_str());
    out.append(
        "
    }

    fn set_",
    );
    out.append(p.name.as_str());
    out.append("(&self, value: ");
    out.append(p.ty.as_str());
    out.append(
        ") {
        self.",
    );
    out.append(p.name.as_str());
    out.append(
        " = value;
    }

    ",
    );
    out
}

impl Builder {
    /// The accessor pairs of all properties.
    fn accessors(&self) -> (r: String)
        ensures
            r@ == accessors_text(self.fields.deep_view()),
    {
        let mut out = String::new();
        let mut i: usize = 0;
        proof {
            assert(self.fields.deep_view().take(0) =~= Seq::<PropertyV>::empty());
        }
        while i < self.fields.len()
            invariant
                0 <= i <= self.fields.len(),
                out@ == accessors_text(self.fields.deep_view().take(i as int)),
            decreases self.fields.len() - i,
        {
            proof {
                assert(self.fields.deep_view().take(i + 1).drop_last() =~= self.fields.deep_view()
                    .take(i as int));
                assert(self.fields.deep_view().take(i + 1).last() == self.fields.deep_view()[i as int]);
                assert(self.fields.deep_view()[i as int] == self.fields@[i as int].deep_view());
            }
            let a = accessor(&self.fields[i]);
            out.append(a.as_str());
            i = i + 1;
        }
        proof {
            assert(self.fields.deep_view().take(self.fields.len() as int) =~= self.fields
                .deep_view());
        }
        out
    }

    /// One property's member-table registration.
    fn init_member(&self, p: &Property) -> (r: String)
        ensures
            r@ == init_member_text(self.ident@, p.deep_view()),
    {
        let mut out = String::from_str("dict.set_item(py, stringify!(");
        out.append(p.name.as_str());
        out.append(
            "), unsafe {
                ::cpython::py_class::members::TypeMember::<",
        );
        out.append(self.ident.as_str());
        out.append(">::into_descriptor(");
        out.append(p.name.as_str());
        out.append(
            ", py, &mut TYPE_OBJECT)?
            })?;
            ",
        );
        out
    }

    /// The member-table registrations of all properties.
    fn init_members(&self) -> (r: String)
        ensures
            r@ == init_members_text(self.ident@, self.fields.deep_view()),
    {
        let mut out = String::new();
        let mut i: usize = 0;
        proof {
            assert(self.fields.deep_view().take(0) =~= Seq::<PropertyV>::empty());
        }
        while i < self.fields.len()
            invariant
                0 <= i <= self.fields.len(),
                out@ == init_members_text(self.ident@, self.fields.deep_view().take(i as int)),
            decreases self.fields.len() - i,
        {
            proof {
                assert(self.fields.deep_view().take(i + 1).drop_last() =~= self.fields.deep_view()
                    .take(i as int));
                assert(self.fields.deep_view().take(i + 1).last() == self.fields.deep_view()[i as int]);
                assert(self.fields.deep_view()[i as int] == self.fields@[i as int].deep_view());
            }
            let m = self.init_member(&self.fields[i]);
            out.append(m.as_str());
            i = i + 1;
        }
        proof {
            assert(self.fields.deep_view().take(self.fields.len() as int) =~= self.fields
                .deep_view());
        }
        out
    }

    /// The instance-construction fragment.
    fn impl_class_create_instance(&self) -> (r: String)
        ensures
            r@ == create_instance_text(self.ident@, self.fields.deep_view()),
    {
        let mut out = String::from_str("impl ");
        out.append(self.ident.as_str());
        out.append(
            " {
    ",
        );
        let acc = self.accessors();
        out.append(acc.as_str());
        out.append("fn create_instance(py: ::cpython::Python, ");
        let args = self.decl_args();
        out.append(args.as_str());
        out.append(") -> ::cpython::PyResult<");
        out.append(self.ident.as_str());
        out.append(
            "> {
        let obj = unsafe {
            <",
        );
        out.append(self.ident.as_str());
        out.append(" as ::cpython::py_class::BaseObject>::alloc(py, &py.get_type::<");
        out.append(self.ident.as_str());
        out.append(">(), (");
        let names = self.comma_names();
        out.append(names.as_str());
        out.append(
            "))?
        };
        return Ok(",
        );
        out.append(self.ident.as_str());
        out.append(
            " { _unsafe_inner: obj });

        static mut TYPE_OBJECT: ::cpython::_detail::ffi::PyTypeObject = ::cpython::_detail::ffi::PyTypeObject {
            tp_dealloc: Some(::cpython::py_class::slots::tp_dealloc_callback::<",
        );
        out.append(self.ident.as_str());
        out.append(
            ">),
            tp_flags: ::cpython::py_class::slots::TPFLAGS_DEFAULT,
            ..::cpython::_detail::ffi::PyTypeObject_INIT
        };
        static mut INIT_ACTIVE: bool = false;

        impl ::cpython::PythonObjectWithTypeObject for ",
        );
        out.append(self.ident.as_str());
        out.append(
            " {
            fn type_object(py: ::cpython::Python) -> ::cpython::PyType {
                unsafe {
                    if ::cpython::py_class::is_ready(py, &TYPE_OBJECT) {
                        ::cpython::PyType::from_type_ptr(py, &mut TYPE_OBJECT)
                    } else {
                        <",
        );
        out.append(self.ident.as_str());
        out.append(
            " as ::cpython::py_class::PythonObjectFromPyClassMacro>::initialize(py)
                            .expect(concat!(\"An error occurred while initializing class \", stringify!(",
        );
        out.append(self.ident.as_str());
        out.append(
            ")))
                    }
                }
            }
        }

        impl ::cpython::py_class::PythonObjectFromPyClassMacro for ",
        );
        out.append(self.ident.as_str());
        out.append(
            " {
            fn initialize(py: ::cpython::Python) -> ::cpython::PyResult<::cpython::PyType> {
                unsafe {
                    if ::cpython::py_class::is_ready(py, &TYPE_OBJECT) {
                        return Ok(::cpython::PyType::from_type_ptr(py, &mut TYPE_OBJECT));
                    }
                    assert!(!INIT_ACTIVE, concat!(\"Reentrancy detected: already initializing class \", stringify!(",
        );
        out.append(self.ident.as_str());
        out.append(
            ")));
                    INIT_ACTIVE = true;
                    let res = init(py);
                    INIT_ACTIVE = false;
                    res
                }
            }
        }

        fn init(py: ::cpython::Python) -> ::cpython::PyResult<::cpython::PyType> {
            unsafe {
                TYPE_OBJECT.tp_name = concat!(stringify!(",
        );
        out.append(self.ident.as_str());
        out.append(
            "), \"\\0\").as_ptr() as *const _;
                TYPE_OBJECT.tp_basicsize = <",
        );
        out.append(self.ident.as_str());
        out.append(
            " as ::cpython::py_class::BaseObject>::size() as ::cpython::_detail::ffi::Py_ssize_t;
            }
            let dict = ::cpython::PyDict::new(py);
            ",
        );
        let members = self.init_members();
        out.append(members.as_str());
        out.append(
            "unsafe {
                assert!(TYPE_OBJECT.tp_dict.is_null());
                TYPE_OBJECT.tp_dict = ::cpython::PythonObject::into_object(dict).steal_ptr();
            }
            unsafe {
                if ::cpython::_detail::ffi::PyType_Ready(&mut TYPE_OBJECT) == 0 {
                    Ok(::cpython::PyType::from_type_ptr(py, &mut TYPE_OBJECT))
                } else {
                    Err(::cpython::PyErr::fetch(py))
                }
            }
        }
    }
}

",
        );
        out
    }

    /// The whole binding of this class: the fragments of the protocol in
    /// their fixed order.
    pub fn build(&self) -> (r: String)
        ensures
            r@ == binding_text(self.deep_view()),
    {
        let mut out = self.impl_to_py_object();
        let s = self.impl_from_py_object();
        out.append(s.as_str());
        let s = self.impl_python_object();
        out.append(s.as_str());
        let s = self.impl_python_object_with_checked_downcast();
        out.append(s.as_str());
        let s = self.impl_base_object();
        out.append(s.as_str());
        let s = self.impl_class_create_instance();
        out.append(s.as_str());
        out
    }
}

/// The smoke test the marker derive adds beside a class: it acquires the
/// runtime, asks for the class's type descriptor, and checks that the
/// descriptor exists.
pub open spec fn py_class_text(name: Seq<char>) -> Seq<char> {
    "#[test]
fn "@ + lower_of("test_"@ + name) + "() {
    use cpython::Python;

    let gil = Python::acquire_gil();
    let py = gil.python();

    assert!(!py.get_type::<"@ + name + ">().as_type_ptr().is_null());
}
"@
}

/// The test item emitted for one marked class, named `test_` plus the
/// lowercased class name.
pub fn py_class(class_name: &str) -> (r: String)
    ensures
        r@ == py_class_text(class_name@),
{
    let mut func = String::from_str("test_");
    func.append(class_name);
    let func = to_lowercase(func.as_str());
    let mut out = String::from_str(
        "#[test]
fn ",
    );
    out.append(func.as_str());
    out.append(
        "() {
    use cpython::Python;

    let gil = Python::acquire_gil();
    let py = gil.python();

    assert!(!py.get_type::<",
    );
    out.append(class_name);
    out.append(
        ">().as_type_ptr().is_null());
}
",
    );
    out
}

} // verus!
