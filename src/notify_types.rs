use vstd::prelude::*;

verus! {

// notify's event taxonomy is made of plain public enums; declaring them lets
// verified code match on the variants directly.
#[verifier::external_type_specification]
pub struct ExEventKind(notify::EventKind);

#[verifier::external_type_specification]
pub struct ExAccessKind(notify::event::AccessKind);

#[verifier::external_type_specification]
pub struct ExAccessMode(notify::event::AccessMode);

#[verifier::external_type_specification]
pub struct ExCreateKind(notify::event::CreateKind);

#[verifier::external_type_specification]
pub struct ExModifyKind(notify::event::ModifyKind);

#[verifier::external_type_specification]
pub struct ExDataChange(notify::event::DataChange);

#[verifier::external_type_specification]
pub struct ExMetadataKind(notify::event::MetadataKind);

#[verifier::external_type_specification]
pub struct ExRenameMode(notify::event::RenameMode);

#[verifier::external_type_specification]
pub struct ExRemoveKind(notify::event::RemoveKind);

/// A failure reported by a notify backend; carried through unread.
#[verifier::external_type_specification]
#[verifier::external_body]
pub struct ExError(notify::Error);

} // verus!
