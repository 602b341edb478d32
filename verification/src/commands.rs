use vstd::prelude::*;

use crate::item::{BacklogItem, ItemKind, ItemModel, Story, Task};
use crate::service::{IncommingError, IncommingResult};
use crate::types::{fibonacci_scale, Assignee, StoryPoint};
use crate::usecase::UseCaseResult;

verus! {

/// The item-type tags a command may carry.
pub open spec fn valid_item_type(t: Seq<char>) -> bool {
    t == "Story"@ || t == "Task"@
}

/// The variant an item-type tag selects; meaningful for valid tags.
pub open spec fn built_kind(t: Seq<char>) -> ItemKind {
    if t == "Story"@ {
        ItemKind::Story
    } else {
        ItemKind::Task
    }
}

/// An optional raw point that would pass story-point validation.
pub open spec fn opt_point_ok(p: Option<u8>) -> bool {
    match p {
        Some(n) => fibonacci_scale(n),
        None => true,
    }
}

/// Whether an add command's raw arguments pass validation.
pub open spec fn add_cmd_ok(t: Seq<char>, p: Option<u8>) -> bool {
    valid_item_type(t) && opt_point_ok(p)
}

/// An optional raw assignee, read at the specification level.
pub open spec fn opt_str_view(a: Option<String>) -> Option<Seq<char>> {
    match a {
        Some(s) => Some(s@),
        None => None,
    }
}

/// Whether an item model is the one an add command describes: the selected
/// variant and the given fields, under whatever identity was drawn.
pub open spec fn cmd_built(
    m: ItemModel,
    t: Seq<char>,
    title: Seq<char>,
    p: Option<u8>,
    a: Option<Seq<char>>,
) -> bool {
    m.kind == built_kind(t) && m.title == title && m.point == p && m.assignee == a
}

/// A command: a capability object that lazily produces validated operation
/// arguments from raw adapter input.
pub trait Command {}

/// A command that describes one item to add.
pub trait AddItemCmd: Command {
    spec fn spec_item_type(&self) -> Seq<char>;

    spec fn spec_title(&self) -> Seq<char>;

    spec fn spec_point(&self) -> Option<u8>;

    spec fn spec_assignee(&self) -> Option<Seq<char>>;

    /// Produce the validated item, or say which argument was invalid: an
    /// unknown item-type tag, or a point outside the scale.
    fn item(&self) -> (r: IncommingResult<BacklogItem>)
        ensures
            add_cmd_ok(self.spec_item_type(), self.spec_point()) ==> (r matches Ok(item)
                && cmd_built(
                item@,
                self.spec_item_type(),
                self.spec_title(),
                self.spec_point(),
                self.spec_assignee(),
            )),
            !add_cmd_ok(self.spec_item_type(), self.spec_point()) ==> (r matches Err(e)
                && e is InvalidValue),
    ;
}

/// A command that names an item and the person to assign it to.
pub trait AssignItemCmd: Command {
    spec fn spec_item_id(&self) -> u128;

    spec fn spec_assignee_name(&self) -> Seq<char>;

    fn id(&self) -> (r: UseCaseResult<u128>)
        ensures
            r matches Ok(i) && i == self.spec_item_id(),
    ;

    fn assignee(&self) -> (r: IncommingResult<Assignee>)
        ensures
            r matches Ok(a) && a@ == self.spec_assignee_name(),
    ;
}

/// A command that names an item and the raw point to estimate it with.
pub trait EstimateItemCmd: Command {
    spec fn spec_item_id(&self) -> u128;

    spec fn spec_point(&self) -> u8;

    fn id(&self) -> (r: UseCaseResult<u128>)
        ensures
            r matches Ok(i) && i == self.spec_item_id(),
    ;

    /// Produce the validated point, or say that it is outside the scale.
    fn point(&self) -> (r: IncommingResult<StoryPoint>)
        ensures
            fibonacci_scale(self.spec_point()) ==> (r matches Ok(p) && p@ == self.spec_point()),
            !fibonacci_scale(self.spec_point()) ==> (r matches Err(e) && e is InvalidValue),
    ;
}

/// Build the item an add command describes, validating the raw arguments:
/// the point must sit on the scale and the tag must name a known variant.
pub fn build_item(
    item_type: &String,
    title: &String,
    point: Option<u8>,
    assignee: &Option<String>,
) -> (r: IncommingResult<BacklogItem>)
    ensures
        add_cmd_ok(item_type@, point) ==> (r matches Ok(item) && cmd_built(
            item@,
            item_type@,
            title@,
            point,
            opt_str_view(*assignee),
        )),
        !add_cmd_ok(item_type@, point) ==> (r matches Err(e) && e is InvalidValue),
{
    let checked: Option<StoryPoint> = match point {
        Some(n) => match StoryPoint::new(n) {
            Ok(p) => Some(p),
            Err(_) => {
                return Err(
                    IncommingError::invalid_value(
                        "StoryPoint",
                        "point must take a fibonacci number from 1 to 21",
                    ),
                );
            },
        },
        None => None,
    };
    let named: Option<Assignee> = match assignee {
        Some(s) => Some(Assignee::new(s.as_str())),
        None => None,
    };
    let story_tag: String = "Story".to_string();
    if item_type.eq(&story_tag) {
        return Ok(BacklogItem::Story(Story::new(title.as_str(), checked, named)));
    }
    let task_tag: String = "Task".to_string();
    if item_type.eq(&task_tag) {
        return Ok(BacklogItem::Task(Task::new(title.as_str(), checked, named)));
    }
    Err(IncommingError::invalid_value("BacklogItem", "item_type does not use the value"))
}

/// The raw add-item arguments as the command-line surface hands them over.
#[derive(Debug, Clone)]
pub struct AddItemCliCmd {
    pub item_type: String,
    pub title: String,
    pub point: Option<u8>,
    pub assignee: Option<String>,
}

impl Command for AddItemCliCmd {

}

impl AddItemCmd for AddItemCliCmd {
    open spec fn spec_item_type(&self) -> Seq<char> {
        self.item_type@
    }

    open spec fn spec_title(&self) -> Seq<char> {
        self.title@
    }

    open spec fn spec_point(&self) -> Option<u8> {
        self.point
    }

    open spec fn spec_assignee(&self) -> Option<Seq<char>> {
        opt_str_view(self.assignee)
    }

    fn item(&self) -> IncommingResult<BacklogItem> {
        build_item(&self.item_type, &self.title, self.point, &self.assignee)
    }
}

/// The raw assign-item arguments as the command-line surface hands them over.
#[derive(Debug, Clone)]
pub struct AssignItemCliCmd {
    pub id: u128,
    pub assignee: String,
}

impl Command for AssignItemCliCmd {

}

impl AssignItemCmd for AssignItemCliCmd {
    open spec fn spec_item_id(&self) -> u128 {
        self.id
    }

    open spec fn spec_assignee_name(&self) -> Seq<char> {
        self.assignee@
    }

    fn id(&self) -> UseCaseResult<u128> {
        Ok(self.id)
    }

    fn assignee(&self) -> IncommingResult<Assignee> {
        Ok(Assignee::new(self.assignee.as_str()))
    }
}

/// The raw estimate-item arguments as the command-line surface hands them
/// over.
#[derive(Debug, Clone)]
pub struct EstimateItemCliCmd {
    pub id: u128,
    pub point: u8,
}

impl Command for EstimateItemCliCmd {

}

impl EstimateItemCmd for EstimateItemCliCmd {
    open spec fn spec_item_id(&self) -> u128 {
        self.id
    }

    open spec fn spec_point(&self) -> u8 {
        self.point
    }

    fn id(&self) -> UseCaseResult<u128> {
        Ok(self.id)
    }

    fn point(&self) -> IncommingResult<StoryPoint> {
        match StoryPoint::new(self.point) {
            Ok(p) => Ok(p),
            Err(e) => Err(IncommingError::invalid_value("StoryPoint", e.message())),
        }
    }
}

/// The raw add-item arguments as the REST surface hands them over.
#[derive(Debug, Clone)]
pub struct AddItemRequest {
    pub item_type: String,
    pub title: String,
    pub point: Option<u8>,
    pub assignee: Option<String>,
}

impl Command for AddItemRequest {

}

impl AddItemCmd for AddItemRequest {
    open spec fn spec_item_type(&self) -> Seq<char> {
        self.item_type@
    }

    open spec fn spec_title(&self) -> Seq<char> {
        self.title@
    }

    open spec fn spec_point(&self) -> Option<u8> {
        self.point
    }

    open spec fn spec_assignee(&self) -> Option<Seq<char>> {
        opt_str_view(self.assignee)
    }

    fn item(&self) -> IncommingResult<BacklogItem> {
        build_item(&self.item_type, &self.title, self.point, &self.assignee)
    }
}

/// The raw update-item body as the REST surface hands it over: an optional
/// new point and an optional new assignee.
#[derive(Debug, Clone)]
pub struct UpdateItemRequest {
    pub point: Option<u8>,
    pub assignee: Option<String>,
}

/// The operation an update request selects.
#[derive(Debug)]
pub enum UpdateAction {
    Estimate(EstimateItemCliCmd),
    Assign(AssignItemCliCmd),
    Fetch,
}

impl UpdateItemRequest {
    /// Pick the operation for the named item: an estimate when a point is
    /// supplied, else an assignment when an assignee is supplied, else a
    /// plain fetch of the backlog.
    pub fn action(self, item_id: u128) -> (r: UpdateAction)
        ensures
            self.point matches Some(p) ==> (r matches UpdateAction::Estimate(c) && c.id == item_id
                && c.point == p),
            (self.point is None && self.assignee is Some) ==> (r matches UpdateAction::Assign(c)
                && c.id == item_id && c.assignee@ == self.assignee->Some_0@),
            (self.point is None && self.assignee is None) ==> r is Fetch,
    {
        match self.point {
            Some(point) => UpdateAction::Estimate(EstimateItemCliCmd { id: item_id, point }),
            None => match self.assignee {
                Some(assignee) => UpdateAction::Assign(AssignItemCliCmd { id: item_id, assignee }),
                None => UpdateAction::Fetch,
            },
        }
    }
}

} // verus!
