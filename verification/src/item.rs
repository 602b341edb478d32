use vstd::prelude::*;

use crate::entity::{Assignable, Entity, Estimatable};
use crate::types::{Assignee, StoryPoint, Title};

verus! {

/// The variant tag of a backlog item. Variants differ only in this tag; the
/// explicit list is the extension point for future per-type rules.
#[derive(Debug, Clone, Copy, PartialEq, Eq, Structural)]
pub enum ItemKind {
    Story,
    Task,
}

/// The mathematical value of one backlog item: its tag and its four fields,
/// with strings read as character sequences.
pub ghost struct ItemModel {
    pub kind: ItemKind,
    pub id: u128,
    pub title: Seq<char>,
    pub point: Option<u8>,
    pub assignee: Option<Seq<char>>,
}

impl ItemModel {
    /// The model after assigning: only the assignee differs.
    pub open spec fn with_assignee(self, assignee: Seq<char>) -> ItemModel {
        ItemModel { assignee: Some(assignee), ..self }
    }

    /// The model after estimating: only the point differs.
    pub open spec fn with_point(self, point: u8) -> ItemModel {
        ItemModel { point: Some(point), ..self }
    }
}

/// An optional estimate, read at the specification level.
pub open spec fn point_view(point: Option<StoryPoint>) -> Option<u8> {
    match point {
        Some(p) => Some(p@),
        None => None,
    }
}

/// An optional assignee, read at the specification level.
pub open spec fn assignee_view(assignee: Option<Assignee>) -> Option<Seq<char>> {
    match assignee {
        Some(a) => Some(a@),
        None => None,
    }
}

/// Relies on uuid's Uuid::new_v4 for a freshly drawn identifier; nothing is
/// assumed of the drawn value.
#[verifier::external_body]
pub(crate) fn fresh_id() -> u128 {
    uuid::Uuid::new_v4().as_u128()
}

/// A user story.
#[derive(Debug, PartialEq, Eq)]
pub struct Story {
    id: u128,
    title: Title,
    point: Option<StoryPoint>,
    assignee: Option<Assignee>,
}

impl View for Story {
    type V = ItemModel;

    closed spec fn view(&self) -> ItemModel {
        ItemModel {
            kind: ItemKind::Story,
            id: self.id,
            title: self.title@,
            point: point_view(self.point),
            assignee: assignee_view(self.assignee),
        }
    }
}

impl Story {
    /// A new story under a freshly drawn identity; the optional point and
    /// assignee are stored as supplied, their validation having happened at
    /// value construction.
    pub fn new(title: &str, point: Option<StoryPoint>, assignee: Option<Assignee>) -> (r: Self)
        ensures
            r@.kind == ItemKind::Story,
            r@.title == title@,
            r@.point == point_view(point),
            r@.assignee == assignee_view(assignee),
    {
        Story { id: fresh_id(), title: Title::new(title), point, assignee }
    }

    /// Rebuild a story as loaded from storage, under its stored identity.
    pub fn restore(
        id: u128,
        title: &str,
        point: Option<StoryPoint>,
        assignee: Option<Assignee>,
    ) -> (r: Self)
        ensures
            r@ == (ItemModel {
                kind: ItemKind::Story,
                id,
                title: title@,
                point: point_view(point),
                assignee: assignee_view(assignee),
            }),
    {
        Story { id, title: Title::new(title), point, assignee }
    }

    pub fn title(&self) -> (r: &Title)
        ensures
            r@ == self@.title,
    {
        &self.title
    }

    pub fn point(&self) -> (r: Option<StoryPoint>)
        ensures
            point_view(r) == self@.point,
    {
        self.point
    }

    pub fn assignee(&self) -> (r: Option<&Assignee>)
        ensures
            match r {
                Some(a) => self@.assignee == Some(a@),
                None => self@.assignee is None,
            },
    {
        match &self.assignee {
            Some(a) => Some(a),
            None => None,
        }
    }
}

impl Clone for Story {
    fn clone(&self) -> (r: Self)
        ensures
            r == *self,
    {
        Story {
            id: self.id,
            title: self.title.clone(),
            point: self.point,
            assignee: match &self.assignee {
                Some(a) => Some(a.clone()),
                None => None,
            },
        }
    }
}

impl Entity for Story {
    open spec fn spec_id(&self) -> u128 {
        self@.id
    }

    fn id(&self) -> u128 {
        self.id
    }
}

impl Assignable for Story {
    open spec fn spec_assignee(&self) -> Option<Seq<char>> {
        self@.assignee
    }

    closed spec fn with_assignee(self, assignee: Assignee) -> Self {
        Story { assignee: Some(assignee), ..self }
    }

    proof fn lemma_with_assignee(self, assignee: Assignee) {
    }

    fn assign(&mut self, assignee: Assignee) {
        self.assignee = Some(assignee);
    }
}

impl Estimatable for Story {
    open spec fn spec_point(&self) -> Option<u8> {
        self@.point
    }

    closed spec fn with_point(self, point: StoryPoint) -> Self {
        Story { point: Some(point), ..self }
    }

    proof fn lemma_with_point(self, point: StoryPoint) {
    }

    fn estimate(&mut self, point: StoryPoint) {
        self.point = Some(point);
    }
}

/// A task.
#[derive(Debug, PartialEq, Eq)]
pub struct Task {
    id: u128,
    title: Title,
    point: Option<StoryPoint>,
    assignee: Option<Assignee>,
}

impl View for Task {
    type V = ItemModel;

    closed spec fn view(&self) -> ItemModel {
        ItemModel {
            kind: ItemKind::Task,
            id: self.id,
            title: self.title@,
            point: point_view(self.point),
            assignee: assignee_view(self.assignee),
        }
    }
}

impl Task {
    /// A new task under a freshly drawn identity; the optional point and
    /// assignee are stored as supplied.
    pub fn new(title: &str, point: Option<StoryPoint>, assignee: Option<Assignee>) -> (r: Self)
        ensures
            r@.kind == ItemKind::Task,
            r@.title == title@,
            r@.point == point_view(point),
            r@.assignee == assignee_view(assignee),
    {
        Task { id: fresh_id(), title: Title::new(title), point, assignee }
    }

    /// Rebuild a task as loaded from storage, under its stored identity.
    pub fn restore(
        id: u128,
        title: &str,
        point: Option<StoryPoint>,
        assignee: Option<Assignee>,
    ) -> (r: Self)
        ensures
            r@ == (ItemModel {
                kind: ItemKind::Task,
                id,
                title: title@,
                point: point_view(point),
                assignee: assignee_view(assignee),
            }),
    {
        Task { id, title: Title::new(title), point, assignee }
    }

    pub fn title(&self) -> (r: &Title)
        ensures
            r@ == self@.title,
    {
        &self.title
    }

    pub fn point(&self) -> (r: Option<StoryPoint>)
        ensures
            point_view(r) == self@.point,
    {
        self.point
    }

    pub fn assignee(&self) -> (r: Option<&Assignee>)
        ensures
            match r {
                Some(a) => self@.assignee == Some(a@),
                None => self@.assignee is None,
            },
    {
        match &self.assignee {
            Some(a) => Some(a),
            None => None,
        }
    }
}

impl Clone for Task {
    fn clone(&self) -> (r: Self)
        ensures
            r == *self,
    {
        Task {
            id: self.id,
            title: self.title.clone(),
            point: self.point,
            assignee: match &self.assignee {
                Some(a) => Some(a.clone()),
                None => None,
            },
        }
    }
}

impl Entity for Task {
    open spec fn spec_id(&self) -> u128 {
        self@.id
    }

    fn id(&self) -> u128 {
        self.id
    }
}

impl Assignable for Task {
    open spec fn spec_assignee(&self) -> Option<Seq<char>> {
        self@.assignee
    }

    closed spec fn with_assignee(self, assignee: Assignee) -> Self {
        Task { assignee: Some(assignee), ..self }
    }

    proof fn lemma_with_assignee(self, assignee: Assignee) {
    }

    fn assign(&mut self, assignee: Assignee) {
        self.assignee = Some(assignee);
    }
}

impl Estimatable for Task {
    open spec fn spec_point(&self) -> Option<u8> {
        self@.point
    }

    closed spec fn with_point(self, point: StoryPoint) -> Self {
        Task { point: Some(point), ..self }
    }

    proof fn lemma_with_point(self, point: StoryPoint) {
    }

    fn estimate(&mut self, point: StoryPoint) {
        self.point = Some(point);
    }
}

/// One backlog item: the closed list of variants that share the common field
/// set. The collection stores items through this type and reaches them
/// through the capability traits only.
#[derive(Debug, PartialEq, Eq)]
pub enum BacklogItem {
    Story(Story),
    Task(Task),
}

impl View for BacklogItem {
    type V = ItemModel;

    open spec fn view(&self) -> ItemModel {
        match self {
            BacklogItem::Story(s) => s@,
            BacklogItem::Task(t) => t@,
        }
    }
}

impl BacklogItem {
    pub fn kind(&self) -> (r: ItemKind)
        ensures
            r == self@.kind,
    {
        match self {
            BacklogItem::Story(_) => ItemKind::Story,
            BacklogItem::Task(_) => ItemKind::Task,
        }
    }

    pub fn title(&self) -> (r: &Title)
        ensures
            r@ == self@.title,
    {
        match self {
            BacklogItem::Story(s) => s.title(),
            BacklogItem::Task(t) => t.title(),
        }
    }

    pub fn point(&self) -> (r: Option<StoryPoint>)
        ensures
            point_view(r) == self@.point,
    {
        match self {
            BacklogItem::Story(s) => s.point(),
            BacklogItem::Task(t) => t.point(),
        }
    }

    pub fn assignee(&self) -> (r: Option<&Assignee>)
        ensures
            match r {
                Some(a) => self@.assignee == Some(a@),
                None => self@.assignee is None,
            },
    {
        match self {
            BacklogItem::Story(s) => s.assignee(),
            BacklogItem::Task(t) => t.assignee(),
        }
    }
}

impl Clone for BacklogItem {
    fn clone(&self) -> (r: Self)
        ensures
            r == *self,
    {
        match self {
            BacklogItem::Story(s) => BacklogItem::Story(s.clone()),
            BacklogItem::Task(t) => BacklogItem::Task(t.clone()),
        }
    }
}

impl Entity for BacklogItem {
    open spec fn spec_id(&self) -> u128 {
        self@.id
    }

    fn id(&self) -> u128 {
        match self {
            BacklogItem::Story(s) => s.id(),
            BacklogItem::Task(t) => t.id(),
        }
    }
}

impl Assignable for BacklogItem {
    open spec fn spec_assignee(&self) -> Option<Seq<char>> {
        self@.assignee
    }

    open spec fn with_assignee(self, assignee: Assignee) -> Self {
        match self {
            BacklogItem::Story(s) => BacklogItem::Story(s.with_assignee(assignee)),
            BacklogItem::Task(t) => BacklogItem::Task(t.with_assignee(assignee)),
        }
    }

    proof fn lemma_with_assignee(self, assignee: Assignee) {
    }

    fn assign(&mut self, assignee: Assignee) {
        match self {
            BacklogItem::Story(s) => s.assign(assignee),
            BacklogItem::Task(t) => t.assign(assignee),
        }
    }
}

impl Estimatable for BacklogItem {
    open spec fn spec_point(&self) -> Option<u8> {
        self@.point
    }

    open spec fn with_point(self, point: StoryPoint) -> Self {
        match self {
            BacklogItem::Story(s) => BacklogItem::Story(s.with_point(point)),
            BacklogItem::Task(t) => BacklogItem::Task(t.with_point(point)),
        }
    }

    proof fn lemma_with_point(self, point: StoryPoint) {
    }

    fn estimate(&mut self, point: StoryPoint) {
        match self {
            BacklogItem::Story(s) => s.estimate(point),
            BacklogItem::Task(t) => t.estimate(point),
        }
    }
}

/// Assigning changes the assignee alone: the tag, identity, title and point
/// of the item's model are kept.
pub proof fn lemma_assign_keeps_rest(item: BacklogItem, assignee: Assignee)
    ensures
        item.with_assignee(assignee)@ == item@.with_assignee(assignee@),
{
}

/// Estimating changes the point alone: the tag, identity, title and assignee
/// of the item's model are kept.
pub proof fn lemma_estimate_keeps_rest(item: BacklogItem, point: StoryPoint)
    ensures
        item.with_point(point)@ == item@.with_point(point@),
{
}

} // verus!
