//! The handles and the unique owners they are made from, in one import.

pub use crate::boxed::AliasableBox;
pub use crate::boxed::UniqueBox;
pub use crate::mut_ref::AliasableMut;
pub use crate::string::AliasableString;
pub use crate::string::UniqueString;
pub use crate::vec::AliasableVec;
pub use crate::vec::UniqueVec;
