//! Re-exports of the library's main types, for one import.

pub use crate::DEFAULT_NAME_DOT;
pub use crate::DEFAULT_NAME_PNG;
pub use crate::decl::{Declaration, DeclKind, Field, Variant, VariantData, TraitMethodSig,
    ImplMethodSig, PathSeg};
pub use crate::module::{Module, ModuleItem};
pub use crate::module::path::ModulePath;
pub use crate::uml::ListItem;
pub use crate::uml::segment::Segment;
pub use crate::uml::item::Item;
pub use crate::uml::item::relation::{Relation, ArrowShape, Style};
pub use crate::uml::item::state::ItemState;
pub use crate::uml::item::state::method::Method;
pub use crate::uml::item::state::implem::Implem;
pub use crate::uml::item::state::abstraction::Abstract;
pub use crate::uml::item::state::abstraction::extend::Trait;
pub use crate::uml::item::state::abstraction::structure::Struct;
pub use crate::uml::item::state::abstraction::enumerate::Enum;
