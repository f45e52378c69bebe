//! Handles, capabilities and the state that the layer keeps about the host.

pub mod ptr;
pub mod handle;
pub mod table;
pub mod class;
pub mod capability;
pub mod array;
pub mod state;
pub mod fetch;
pub mod object_hook;
pub mod call;
pub mod layout;
pub mod vr;

pub use array::{RawParts, TArray};
pub use call::EFindName;
pub use capability::{RFField, RFProperty, RIConsoleObject, RUField, RUObject, RUStruct};
pub use class::StaticClass;
pub use handle::{
    FArrayProperty, FBoolProperty, FConsoleManager, FEnumProperty, FField, FFieldClass, FMalloc,
    FName, FNumericProperty, FProperty, FRHITexture2D, FStructProperty, FUObjectArray, Handle,
    IConsoleCommand, IConsoleObject, IConsoleVariable, MotionControllerState, UClass, UEngine,
    UEnum, UField, UFunction, UGameEngine, UObject, UScriptStruct, UStruct, UWorld,
};
pub use layout::{ConsoleObjectElement, FUObjectItem, StructOpts};
pub use ptr::Ptr;
pub use state::{Instance, API};
