mod backlog;
mod collection;
mod commands;
mod entity;
mod error;
mod imap;
mod item;
mod laws;
mod ports;
mod service;
mod types;
mod usecase;

pub use backlog::{Backlog, BacklogModel};
pub use collection::{
    entries_ok, entry_models, has_key, item_models, key_index, keys_distinct, lemma_add_preserves_ok,
    lemma_assign_preserves_ok, lemma_estimate_preserves_ok, lemma_key_index_unique, spec_add,
    spec_add_all, spec_assign, spec_estimate, spec_find, AddItem, AssignableFromCollection,
    EstimatableFromCollection, FindFromCollection,
};
pub use commands::{
    add_cmd_ok, build_item, built_kind, cmd_built, opt_point_ok, opt_str_view, valid_item_type,
    AddItemCliCmd, AddItemCmd, AddItemRequest, AssignItemCliCmd, AssignItemCmd, Command,
    EstimateItemCliCmd, EstimateItemCmd, UpdateAction, UpdateItemRequest,
};
pub use entity::{Assignable, Entity, Estimatable};
pub use error::{BacklogError, BacklogResult};
pub use item::{assignee_view, point_view, BacklogItem, ItemKind, ItemModel, Story, Task};
pub use laws::{lemma_assign_then_find, lemma_parts_round_trip};
pub use ports::{PortsError, PortsResult};
pub use service::{
    BusinessLogicError, IncommingError, IncommingResult, OutcommingError, ServiceError,
};
pub use types::{fibonacci_scale, Assignee, StoryPoint, Title};
pub use usecase::{add_item_uc, assign_item_uc, estimate_item_uc, UseCaseError, UseCaseResult};
