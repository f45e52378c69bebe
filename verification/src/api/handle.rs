//! The handle types of the host's object system.
//!
//! All handle types share one shape, [`Handle`], and differ by a marker, the
//! kind. What a handle type has beyond the handle model is attached to its
//! kind: a display name, the source of its function table, a class binding,
//! and capabilities.

use vstd::prelude::*;
use core::marker::PhantomData;
use vstd::std_specs::cmp::PartialEqSpecImpl;
use crate::api::capability::{RFField, RFProperty, RIConsoleObject, RUField, RUObject, RUStruct};
use crate::api::class::StaticClass;
use crate::api::ptr::Ptr;
use crate::api::table::TableSource;

verus! {

/// A handle to a host object of the kind `K`. The kind is a marker: it tells
/// handle types apart and takes no room.
#[derive(Debug)]
pub struct Handle<K> {
    ptr: usize,
    kind: PhantomData<K>,
}

impl<K> Clone for Handle<K> {
    fn clone(&self) -> (copy: Self)
        ensures
            copy == *self,
    {
        Handle { ptr: self.ptr, kind: PhantomData }
    }
}

impl<K> Copy for Handle<K> {

}

impl<K> PartialEq for Handle<K> {
    fn eq(&self, other: &Self) -> (same: bool) {
        self.ptr == other.ptr
    }
}

impl<K> PartialEqSpecImpl for Handle<K> {
    open spec fn obeys_eq_spec() -> bool {
        true
    }

    open spec fn eq_spec(&self, other: &Self) -> bool {
        self.addr() == other.addr()
    }
}

impl<K> Eq for Handle<K> {

}

impl<K> Ptr for Handle<K> {
    closed spec fn addr(&self) -> usize {
        self.ptr
    }

    closed spec fn at(ptr: usize) -> Self {
        Handle { ptr, kind: PhantomData }
    }

    proof fn lemma_at_addr(ptr: usize) {
    }

    proof fn lemma_addr_at(h: Self) {
    }

    fn from_ptr(ptr: usize) -> (h: Self) {
        Handle { ptr, kind: PhantomData }
    }

    fn to_ptr(&self) -> (ptr: usize) {
        self.ptr
    }
}

impl<K> Handle<K> {
    /// Reads the handle as a handle of another type, with no check. For a
    /// caller who knows what the host's type comparison cannot tell.
    pub fn unsafe_cast<T: Ptr>(&self) -> (other: T)
        ensures
            other == T::at(self.addr()),
            other.addr() == self.addr(),
    {
        T::from_ptr(self.ptr)
    }

    /// The checked downcast to the handle type `T`, where `is_a` is the
    /// host's answer to whether the object is of the class that `T` is bound
    /// to. The cast succeeds exactly when the host says so; a failed cast is
    /// an ordinary outcome and gives nothing.
    pub fn cast<T: StaticClass>(&self, is_a: bool) -> (other: Option<T>)
        ensures
            other == crate::api::class::cast_to::<T>(self.addr(), is_a),
    {
        if is_a {
            Some(T::from_ptr(self.ptr))
        } else {
            None
        }
    }
}

/// A kind whose handle type has a function table.
pub trait Tabled {
    /// Where the address of the table is read from.
    spec fn source() -> (Option<Seq<char>>, Seq<char>);

    /// Where the address of the table is read from.
    fn table_source() -> (from: TableSource)
        ensures
            from.field@ == Self::source().1,
            match from.outer {
                Some(outer) => Self::source().0 == Some(outer@),
                None => Self::source().0 is None,
            },
    ;
}

impl<K: Tabled> Handle<K> {
    /// The handle as the functions of the type's table take it.
    pub fn to_handle(&self) -> (handle: usize)
        ensures
            handle == self.addr(),
    {
        self.ptr
    }

    /// Wraps a handle that a function of the host returned. Nothing is
    /// checked.
    pub fn from_handle(handle: usize) -> (h: Self)
        ensures
            h == Self::at(handle),
            h.addr() == handle,
    {
        Handle { ptr: handle, kind: PhantomData }
    }

    /// Wraps a handle that a function of the host returned, where `0` means
    /// that the host found nothing.
    pub fn from_handle_safe(handle: usize) -> (h: Option<Self>)
        ensures
            handle == 0 ==> h is None,
            handle != 0 ==> h == Some(Self::at(handle)) && h->0.addr() == handle,
    {
        if handle == 0 {
            None
        } else {
            Some(Handle { ptr: handle, kind: PhantomData })
        }
    }
}

/// The kind of [`FMalloc`].
#[derive(Debug)]
pub struct FMallocKind;

/// A handle to the host's allocator.
pub type FMalloc = Handle<FMallocKind>;

impl Tabled for FMallocKind {
    open spec fn source() -> (Option<Seq<char>>, Seq<char>) {
        (None, "malloc"@)
    }

    fn table_source() -> (from: TableSource) {
        TableSource { outer: None, field: "malloc" }
    }
}

/// The kind of [`FName`].
#[derive(Debug)]
pub struct FNameKind;

/// A handle to an interned name.
pub type FName = Handle<FNameKind>;

impl Tabled for FNameKind {
    open spec fn source() -> (Option<Seq<char>>, Seq<char>) {
        (None, "fname"@)
    }

    fn table_source() -> (from: TableSource) {
        TableSource { outer: None, field: "fname" }
    }
}

/// The kind of [`UObject`].
#[derive(Debug)]
pub struct UObjectKind;

/// A handle to an object.
pub type UObject = Handle<UObjectKind>;

impl UObject {
    /// The name under which the host knows the type.
    pub fn internal_name() -> (name: &'static str)
        ensures
            name@ == "Object"@,
    {
        "Object"
    }
}

impl Tabled for UObjectKind {
    open spec fn source() -> (Option<Seq<char>>, Seq<char>) {
        (None, "uobject"@)
    }

    fn table_source() -> (from: TableSource) {
        TableSource { outer: None, field: "uobject" }
    }
}

impl StaticClass for UObject {
    open spec fn class_key() -> Seq<char> {
        "Class /Script/CoreUObject.Object"@
    }

    fn class_path() -> (key: &'static str) {
        "Class /Script/CoreUObject.Object"
    }
}

impl RUObject for UObject {

}

/// The kind of [`UField`].
#[derive(Debug)]
pub struct UFieldKind;

/// A handle to a field of the object family.
pub type UField = Handle<UFieldKind>;

impl UField {
    /// The name under which the host knows the type.
    pub fn internal_name() -> (name: &'static str)
        ensures
            name@ == "Field"@,
    {
        "Field"
    }
}

impl Tabled for UFieldKind {
    open spec fn source() -> (Option<Seq<char>>, Seq<char>) {
        (None, "ufield"@)
    }

    fn table_source() -> (from: TableSource) {
        TableSource { outer: None, field: "ufield" }
    }
}

impl StaticClass for UField {
    open spec fn class_key() -> Seq<char> {
        "Class /Script/CoreUObject.Field"@
    }

    fn class_path() -> (key: &'static str) {
        "Class /Script/CoreUObject.Field"
    }
}

impl RUObject for UField {

}

impl RUField for UField {

}

/// The kind of [`UStruct`].
#[derive(Debug)]
pub struct UStructKind;

/// A handle to a struct type.
pub type UStruct = Handle<UStructKind>;

impl UStruct {
    /// The name under which the host knows the type.
    pub fn internal_name() -> (name: &'static str)
        ensures
            name@ == "Struct"@,
    {
        "Struct"
    }
}

impl Tabled for UStructKind {
    open spec fn source() -> (Option<Seq<char>>, Seq<char>) {
        (None, "ustruct"@)
    }

    fn table_source() -> (from: TableSource) {
        TableSource { outer: None, field: "ustruct" }
    }
}

impl StaticClass for UStruct {
    open spec fn class_key() -> Seq<char> {
        "Class /Script/CoreUObject.Struct"@
    }

    fn class_path() -> (key: &'static str) {
        "Class /Script/CoreUObject.Struct"
    }
}

impl RUObject for UStruct {

}

impl RUField for UStruct {

}

impl RUStruct for UStruct {

}

/// The kind of [`UClass`].
#[derive(Debug)]
pub struct UClassKind;

/// A handle to a class descriptor.
pub type UClass = Handle<UClassKind>;

impl UClass {
    /// The name under which the host knows the type.
    pub fn internal_name() -> (name: &'static str)
        ensures
            name@ == "Class"@,
    {
        "Class"
    }
}

impl Tabled for UClassKind {
    open spec fn source() -> (Option<Seq<char>>, Seq<char>) {
        (None, "uclass"@)
    }

    fn table_source() -> (from: TableSource) {
        TableSource { outer: None, field: "uclass" }
    }
}

impl StaticClass for UClass {
    open spec fn class_key() -> Seq<char> {
        "Class /Script/CoreUObject.Class"@
    }

    fn class_path() -> (key: &'static str) {
        "Class /Script/CoreUObject.Class"
    }
}

impl RUObject for UClass {

}

impl RUField for UClass {

}

impl RUStruct for UClass {

}

/// The kind of [`UFunction`].
#[derive(Debug)]
pub struct UFunctionKind;

/// A handle to a function.
pub type UFunction = Handle<UFunctionKind>;

impl UFunction {
    /// The name under which the host knows the type.
    pub fn internal_name() -> (name: &'static str)
        ensures
            name@ == "Function"@,
    {
        "Function"
    }
}

impl Tabled for UFunctionKind {
    open spec fn source() -> (Option<Seq<char>>, Seq<char>) {
        (None, "ufunction"@)
    }

    fn table_source() -> (from: TableSource) {
        TableSource { outer: None, field: "ufunction" }
    }
}

impl StaticClass for UFunction {
    open spec fn class_key() -> Seq<char> {
        "Class /Script/CoreUObject.Function"@
    }

    fn class_path() -> (key: &'static str) {
        "Class /Script/CoreUObject.Function"
    }
}

impl RUObject for UFunction {

}

impl RUField for UFunction {

}

impl RUStruct for UFunction {

}

/// The kind of [`UScriptStruct`].
#[derive(Debug)]
pub struct UScriptStructKind;

/// A handle to a script struct type.
pub type UScriptStruct = Handle<UScriptStructKind>;

impl UScriptStruct {
    /// The name under which the host knows the type.
    pub fn internal_name() -> (name: &'static str)
        ensures
            name@ == "ScriptStruct"@,
    {
        "ScriptStruct"
    }
}

impl Tabled for UScriptStructKind {
    open spec fn source() -> (Option<Seq<char>>, Seq<char>) {
        (None, "uscriptstruct"@)
    }

    fn table_source() -> (from: TableSource) {
        TableSource { outer: None, field: "uscriptstruct" }
    }
}

impl StaticClass for UScriptStruct {
    open spec fn class_key() -> Seq<char> {
        "Class /Script/CoreUObject.ScriptStruct"@
    }

    fn class_path() -> (key: &'static str) {
        "Class /Script/CoreUObject.ScriptStruct"
    }
}

impl RUObject for UScriptStruct {

}

impl RUField for UScriptStruct {

}

impl RUStruct for UScriptStruct {

}

/// The kind of [`FUObjectArray`].
#[derive(Debug)]
pub struct FUObjectArrayKind;

/// A handle to the host's array of all objects.
pub type FUObjectArray = Handle<FUObjectArrayKind>;

impl Tabled for FUObjectArrayKind {
    open spec fn source() -> (Option<Seq<char>>, Seq<char>) {
        (None, "uobject_array"@)
    }

    fn table_source() -> (from: TableSource) {
        TableSource { outer: None, field: "uobject_array" }
    }
}

/// The kind of [`UEnum`].
#[derive(Debug)]
pub struct UEnumKind;

/// A handle to an enum type.
pub type UEnum = Handle<UEnumKind>;

impl UEnum {
    /// The name under which the host knows the type.
    pub fn internal_name() -> (name: &'static str)
        ensures
            name@ == "Enum"@,
    {
        "Enum"
    }
}

impl RUObject for UEnum {

}

/// The kind of [`FField`].
#[derive(Debug)]
pub struct FFieldKind;

/// A handle to a field of the property family.
pub type FField = Handle<FFieldKind>;

impl Tabled for FFieldKind {
    open spec fn source() -> (Option<Seq<char>>, Seq<char>) {
        (None, "ffield"@)
    }

    fn table_source() -> (from: TableSource) {
        TableSource { outer: None, field: "ffield" }
    }
}

/// The kind of [`FProperty`].
#[derive(Debug)]
pub struct FPropertyKind;

/// A handle to a property.
pub type FProperty = Handle<FPropertyKind>;

impl Tabled for FPropertyKind {
    open spec fn source() -> (Option<Seq<char>>, Seq<char>) {
        (None, "fproperty"@)
    }

    fn table_source() -> (from: TableSource) {
        TableSource { outer: None, field: "fproperty" }
    }
}

impl RFField for FProperty {

}

/// The kind of [`FArrayProperty`].
#[derive(Debug)]
pub struct FArrayPropertyKind;

/// A handle to an array property.
pub type FArrayProperty = Handle<FArrayPropertyKind>;

impl Tabled for FArrayPropertyKind {
    open spec fn source() -> (Option<Seq<char>>, Seq<char>) {
        (None, "farrayproperty"@)
    }

    fn table_source() -> (from: TableSource) {
        TableSource { outer: None, field: "farrayproperty" }
    }
}

impl RFField for FArrayProperty {

}

impl RFProperty for FArrayProperty {

}

/// The kind of [`FBoolProperty`].
#[derive(Debug)]
pub struct FBoolPropertyKind;

/// A handle to a boolean property.
pub type FBoolProperty = Handle<FBoolPropertyKind>;

impl Tabled for FBoolPropertyKind {
    open spec fn source() -> (Option<Seq<char>>, Seq<char>) {
        (None, "fboolproperty"@)
    }

    fn table_source() -> (from: TableSource) {
        TableSource { outer: None, field: "fboolproperty" }
    }
}

impl RFField for FBoolProperty {

}

impl RFProperty for FBoolProperty {

}

/// The kind of [`FStructProperty`].
#[derive(Debug)]
pub struct FStructPropertyKind;

/// A handle to a struct property.
pub type FStructProperty = Handle<FStructPropertyKind>;

impl Tabled for FStructPropertyKind {
    open spec fn source() -> (Option<Seq<char>>, Seq<char>) {
        (None, "fstructproperty"@)
    }

    fn table_source() -> (from: TableSource) {
        TableSource { outer: None, field: "fstructproperty" }
    }
}

impl RFField for FStructProperty {

}

impl RFProperty for FStructProperty {

}

/// The kind of [`FNumericProperty`].
#[derive(Debug)]
pub struct FNumericPropertyKind;

/// A handle to a numeric property.
pub type FNumericProperty = Handle<FNumericPropertyKind>;

impl RFField for FNumericProperty {

}

impl RFProperty for FNumericProperty {

}

/// The kind of [`FEnumProperty`].
#[derive(Debug)]
pub struct FEnumPropertyKind;

/// A handle to an enum property.
pub type FEnumProperty = Handle<FEnumPropertyKind>;

impl Tabled for FEnumPropertyKind {
    open spec fn source() -> (Option<Seq<char>>, Seq<char>) {
        (None, "fenumproperty"@)
    }

    fn table_source() -> (from: TableSource) {
        TableSource { outer: None, field: "fenumproperty" }
    }
}

impl RFField for FEnumProperty {

}

impl RFProperty for FEnumProperty {

}

/// The kind of [`FFieldClass`].
#[derive(Debug)]
pub struct FFieldClassKind;

/// A handle to the class of a field of the property family.
pub type FFieldClass = Handle<FFieldClassKind>;

impl Tabled for FFieldClassKind {
    open spec fn source() -> (Option<Seq<char>>, Seq<char>) {
        (None, "ffield_class"@)
    }

    fn table_source() -> (from: TableSource) {
        TableSource { outer: None, field: "ffield_class" }
    }
}

/// The kind of [`FConsoleManager`].
#[derive(Debug)]
pub struct FConsoleManagerKind;

/// A handle to the console manager.
pub type FConsoleManager = Handle<FConsoleManagerKind>;

impl Tabled for FConsoleManagerKind {
    open spec fn source() -> (Option<Seq<char>>, Seq<char>) {
        (None, "console"@)
    }

    fn table_source() -> (from: TableSource) {
        TableSource { outer: None, field: "console" }
    }
}

/// The kind of [`FRHITexture2D`].
#[derive(Debug)]
pub struct FRHITexture2DKind;

/// A handle to a render texture.
pub type FRHITexture2D = Handle<FRHITexture2DKind>;

impl Tabled for FRHITexture2DKind {
    open spec fn source() -> (Option<Seq<char>>, Seq<char>) {
        (None, "frhitexture2d"@)
    }

    fn table_source() -> (from: TableSource) {
        TableSource { outer: None, field: "frhitexture2d" }
    }
}

/// The kind of [`IConsoleObject`].
#[derive(Debug)]
pub struct IConsoleObjectKind;

/// A handle to a console object.
pub type IConsoleObject = Handle<IConsoleObjectKind>;

impl Tabled for IConsoleObjectKind {
    open spec fn source() -> (Option<Seq<char>>, Seq<char>) {
        (None, "console"@)
    }

    fn table_source() -> (from: TableSource) {
        TableSource { outer: None, field: "console" }
    }
}

/// The kind of [`IConsoleVariable`].
#[derive(Debug)]
pub struct IConsoleVariableKind;

/// A handle to a console variable.
pub type IConsoleVariable = Handle<IConsoleVariableKind>;

impl Tabled for IConsoleVariableKind {
    open spec fn source() -> (Option<Seq<char>>, Seq<char>) {
        (None, "console"@)
    }

    fn table_source() -> (from: TableSource) {
        TableSource { outer: None, field: "console" }
    }
}

impl RIConsoleObject for IConsoleVariable {

}

/// The kind of [`IConsoleCommand`].
#[derive(Debug)]
pub struct IConsoleCommandKind;

/// A handle to a console command.
pub type IConsoleCommand = Handle<IConsoleCommandKind>;

impl Tabled for IConsoleCommandKind {
    open spec fn source() -> (Option<Seq<char>>, Seq<char>) {
        (None, "console"@)
    }

    fn table_source() -> (from: TableSource) {
        TableSource { outer: None, field: "console" }
    }
}

impl RIConsoleObject for IConsoleCommand {

}

/// The kind of [`UEngine`].
#[derive(Debug)]
pub struct UEngineKind;

/// A handle to the engine.
pub type UEngine = Handle<UEngineKind>;

impl UEngine {
    /// The name under which the host knows the type.
    pub fn internal_name() -> (name: &'static str)
        ensures
            name@ == "Engine"@,
    {
        "Engine"
    }
}

impl RUObject for UEngine {

}

/// The kind of [`UGameEngine`].
#[derive(Debug)]
pub struct UGameEngineKind;

/// A handle to the game engine.
pub type UGameEngine = Handle<UGameEngineKind>;

impl UGameEngine {
    /// The name under which the host knows the type.
    pub fn internal_name() -> (name: &'static str)
        ensures
            name@ == "GameEngine"@,
    {
        "GameEngine"
    }
}

impl RUObject for UGameEngine {

}

/// The kind of [`UWorld`].
#[derive(Debug)]
pub struct UWorldKind;

/// A handle to a world.
pub type UWorld = Handle<UWorldKind>;

impl UWorld {
    /// The name under which the host knows the type.
    pub fn internal_name() -> (name: &'static str)
        ensures
            name@ == "World"@,
    {
        "World"
    }
}

impl StaticClass for UWorld {
    open spec fn class_key() -> Seq<char> {
        "Class /Script/Engine.World"@
    }

    fn class_path() -> (key: &'static str) {
        "Class /Script/Engine.World"
    }
}

impl RUObject for UWorld {

}

/// The kind of [`MotionControllerState`].
#[derive(Debug)]
pub struct MotionControllerStateKind;

/// A handle to the motion controller state of an object.
pub type MotionControllerState = Handle<MotionControllerStateKind>;

impl MotionControllerState {
    /// The name under which the host knows the type.
    pub fn internal_name() -> (name: &'static str)
        ensures
            name@ == "MotionControllerState"@,
    {
        "MotionControllerState"
    }
}

impl Tabled for MotionControllerStateKind {
    open spec fn source() -> (Option<Seq<char>>, Seq<char>) {
        (Some("uobject_hook"@), "mc_state"@)
    }

    fn table_source() -> (from: TableSource) {
        TableSource { outer: Some("uobject_hook"), field: "mc_state" }
    }
}

} // verus!
