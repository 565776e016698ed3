//! The discovery flow: run the page query, then attach each project's
//! tags and categories.
use super::{
    db_failure, fails_internally, fails_with, ok_answer, unexpected, Answer, DbOp, Reply, Step,
};
use crate::domain::errors::CatalogError;
use crate::domain::project::{Project, ProjectDto};
use crate::handlers::projects::clone_project;
use crate::search::{page_offset_fits, page_total, plan_discovery, plan_matches, DiscoveryPage, DiscoveryQuery};
use vstd::prelude::*;

verus! {

#[derive(Clone, Debug)]
pub enum DiscoverStage {
    Page,
    Tags { index: usize },
    Categories { index: usize, tags: Vec<String> },
    Finished,
}

/// `GET /discovery`: one page of published, live projects matching the
/// query, each with its tags and categories.
#[derive(Clone, Debug)]
pub struct DiscoverFlow {
    pub page: u32,
    pub page_size: u32,
    pub rows: Vec<Project>,
    pub total: i64,
    pub items: Vec<ProjectDto>,
    pub stage: DiscoverStage,
}

/// `step` answers with the page `page`/`page_size`/`total` whose items
/// are `items`.
pub open spec fn answers_page(step: Step<Answer<DiscoveryPage>>, page: u32, page_size: u32, total: i64, items: Seq<ProjectDto>) -> bool {
    step matches Step::Finish(Ok(a)) && a.status == 200 && a.body.success && a.body.message@
        == "OK"@ && (a.body.data matches Some(pg) && pg.page == page && pg.page_size == page_size
        && pg.total == total && pg.items@ == items)
}

impl DiscoverFlow {
    /// Start a discovery query.
    pub fn start(query: DiscoveryQuery) -> (r: (Self, Step<Answer<DiscoveryPage>>))
        requires
            page_offset_fits(query),
        ensures
            r.0.stage is Page,
            r.0.items@.len() == 0,
            r.1 matches Step::Query(DbOp::Discover(plan)) && plan_matches(query, plan)
                && r.0.page == plan.page && r.0.page_size == plan.page_size,
    {
        let plan = plan_discovery(query);
        (
            DiscoverFlow {
                page: plan.page,
                page_size: plan.page_size,
                rows: Vec::new(),
                total: 0,
                items: Vec::new(),
                stage: DiscoverStage::Page,
            },
            Step::Query(DbOp::Discover(plan)),
        )
    }

    /// Labels of row `index` on, or the answer.
    /// (`items`: the projects gathered so far.)
    pub open spec fn rows_from(self, items: Seq<ProjectDto>, index: int, stage: DiscoverStage, step: Step<Answer<DiscoveryPage>>) -> bool {
        if index < self.rows@.len() {
            self.items@ == items && stage == DiscoverStage::Tags { index: index as usize } && step
                == Step::<Answer<DiscoveryPage>>::Query(DbOp::TagsFor(self.rows@[index].id))
        } else {
            stage is Finished && answers_page(step, self.page, self.page_size, self.total, items)
        }
    }

    pub open spec fn next(self, reply: Reply, new: Self, step: Step<Answer<DiscoveryPage>>) -> bool {
        &&& new.page == self.page
        &&& new.page_size == self.page_size
        &&& match (self.stage, reply) {
            (DiscoverStage::Page, Reply::Page { rows, total }) => {
                &&& new.rows == rows
                &&& new.total == match total {
                    Some(t) => t,
                    None => 0,
                }
                &&& new.rows_from(self.items@, 0, new.stage, step)
            },
            (DiscoverStage::Tags { index }, Reply::Labels(tags)) => if index < self.rows@.len() {
                new.rows == self.rows && new.total == self.total && new.items@ == self.items@
                    && new.stage == DiscoverStage::Categories { index, tags } && step
                    == Step::<Answer<DiscoveryPage>>::Query(
                    DbOp::CategoriesFor(self.rows@[index as int].id),
                )
            } else {
                new.stage is Finished && fails_internally(step)
            },
            (DiscoverStage::Categories { index, tags }, Reply::Labels(categories)) => if index
                < self.rows@.len() {
                new.rows == self.rows && new.total == self.total && new.rows_from(
                    self.items@.push(
                        ProjectDto::spec_from_project(self.rows@[index as int], tags, categories),
                    ),
                    index + 1,
                    new.stage,
                    step,
                )
            } else {
                new.stage is Finished && fails_internally(step)
            },
            (DiscoverStage::Finished, _) => new.stage is Finished && fails_internally(step),
            (_, Reply::Failed(m)) => new.stage is Finished && fails_with(
                step,
                CatalogError::Database(m),
            ),
            _ => new.stage is Finished && fails_internally(step),
        }
    }

    fn make_rows_from(self, index: usize) -> (r: (Self, Step<Answer<DiscoveryPage>>))
        requires
            index <= self.rows@.len(),
        ensures
            r.0.page == self.page,
            r.0.page_size == self.page_size,
            r.0.rows == self.rows,
            r.0.total == self.total,
            r.0.rows_from(self.items@, index as int, r.0.stage, r.1),
    {
        if index < self.rows.len() {
            let id = self.rows[index].id;
            (DiscoverFlow { stage: DiscoverStage::Tags { index }, ..self }, Step::Query(DbOp::TagsFor(id)))
        } else {
            let page = self.page;
            let page_size = self.page_size;
            let total = self.total;
            let ghost items = self.items@;
            let DiscoverFlow { rows, items, .. } = self;
            let answer = ok_answer(200, DiscoveryPage { items, page, page_size, total }, "OK");
            (
                DiscoverFlow { page, page_size, rows, total, items: Vec::new(), stage: DiscoverStage::Finished },
                answer,
            )
        }
    }

    /// Continue with the outcome of the last step.
    pub fn resume(self, reply: Reply) -> (r: (Self, Step<Answer<DiscoveryPage>>))
        ensures
            self.next(reply, r.0, r.1),
    {
        let stage = self.stage;
        let shell = DiscoverFlow { stage: DiscoverStage::Finished, ..self };
        match (stage, reply) {
            (DiscoverStage::Page, Reply::Page { rows, total }) => {
                let t = page_total(total);
                let flow = DiscoverFlow { rows, total: t, ..shell };
                flow.make_rows_from(0)
            },
            (DiscoverStage::Tags { index }, Reply::Labels(tags)) => if index < shell.rows.len() {
                let id = shell.rows[index].id;
                (
                    DiscoverFlow { stage: DiscoverStage::Categories { index, tags }, ..shell },
                    Step::Query(DbOp::CategoriesFor(id)),
                )
            } else {
                (shell, unexpected())
            },
            (DiscoverStage::Categories { index, tags }, Reply::Labels(categories)) => if index
                < shell.rows.len() {
                let p = clone_project(&shell.rows[index]);
                let mut flow = shell;
                flow.items.push(ProjectDto::from_project(p, tags, categories));
                flow.make_rows_from(index + 1)
            } else {
                (shell, unexpected())
            },
            (DiscoverStage::Finished, _) => (shell, unexpected()),
            (_, Reply::Failed(m)) => (shell, db_failure(m)),
            _ => (shell, unexpected()),
        }
    }
}

} // verus!
