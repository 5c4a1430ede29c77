use crate::model::Row;
use vstd::prelude::*;

verus! {

/// The sole persisted entity: one todo item.
///
/// `id` is absent before the task is persisted and assigned by the store on
/// creation; `title` must be unique among persisted tasks (the store enforces
/// it); `description` is free text; `progress` is a completion count in
/// [0, 255] whose meaning is caller-defined.
#[derive(Debug)]
pub struct Task {
    pub id: Option<u32>,
    pub title: String,
    pub description: String,
    pub progress: u8,
}

impl Task {
    /// The row a task occupies in the store: title, description and progress.
    pub open spec fn row(&self) -> Row {
        (self.title@, self.description@, self.progress)
    }

    /// A task not yet persisted: no id, zero progress.
    pub fn new(title: &str, description: &str) -> (t: Task)
        ensures
            t.id is None,
            t.title@ == title@,
            t.description@ == description@,
            t.progress == 0,
    {
        Task {
            id: None,
            title: title.to_owned(),
            description: description.to_owned(),
            progress: 0,
        }
    }
}

} // verus!
