//! Paging and sorting of list queries, and the list requests that carry them.

use vstd::prelude::*;
use crate::status::{TaskInstanceStatus, WorkflowInstanceStatus};

verus! {

/// The first page.
pub fn default_page() -> (p: u64)
    ensures
        p == 1,
{
    1
}

/// Ten items per page.
pub fn default_page_size() -> (p: u64)
    ensures
        p == 10,
{
    10
}

/// Sort by creation time.
pub fn default_sort_field() -> (s: String)
    ensures
        s@ == "created_at"@,
{
    "created_at".to_owned()
}

/// Newest first.
pub fn default_sort_order() -> (s: String)
    ensures
        s@ == "desc"@,
{
    "desc".to_owned()
}

/// Requested page (1-based) and page size.
#[derive(Debug, Clone)]
pub struct Pagination {
    pub page: u64,
    pub page_size: u64,
}

/// A page of results.
#[derive(Debug, Clone)]
pub struct PaginatedData<T> {
    pub items: Vec<T>,
    pub total: u64,
    pub page: u64,
    pub page_size: u64,
}

/// Sort field and order ("asc" or "desc").
#[derive(Debug, Clone)]
pub struct SortQuery {
    pub sort_by: String,
    pub sort_order: String,
}

impl Default for Pagination {
    /// Page 1 of 10.
    fn default() -> (r: Self)
        ensures
            r.page == 1,
            r.page_size == 10,
    {
        Pagination { page: default_page(), page_size: default_page_size() }
    }
}

impl Default for SortQuery {
    /// Newest first by creation time.
    fn default() -> (r: Self)
        ensures
            r.sort_by@ == "created_at"@,
            r.sort_order@ == "desc"@,
    {
        SortQuery { sort_by: default_sort_field(), sort_order: default_sort_order() }
    }
}

impl Pagination {
    pub fn new(page: u64, page_size: u64) -> (r: Self)
        ensures
            r.page == page,
            r.page_size == page_size,
    {
        Pagination { page, page_size }
    }
}

impl SortQuery {
    pub fn new(sort_by: String, sort_order: String) -> (r: Self)
        ensures
            r.sort_by == sort_by,
            r.sort_order == sort_order,
    {
        SortQuery { sort_by, sort_order }
    }
}

/// Paging and sorting of a list request, each missing part defaulted.
pub open spec fn resolved_paging(
    page: Option<u64>,
    page_size: Option<u64>,
    sort_by: Option<String>,
    sort_order: Option<String>,
    p: Pagination,
    s: SortQuery,
) -> bool {
    &&& p.page == (match page { Some(x) => x, None => 1u64 })
    &&& p.page_size == (match page_size { Some(x) => x, None => 10u64 })
    &&& s.sort_by@ == (match sort_by { Some(x) => x@, None => "created_at"@ })
    &&& s.sort_order@ == (match sort_order { Some(x) => x@, None => "desc"@ })
}

fn resolve_paging(page: Option<u64>, page_size: Option<u64>, sort_by: Option<String>, sort_order: Option<String>)
    -> (r: (Pagination, SortQuery))
    ensures
        resolved_paging(page, page_size, sort_by, sort_order, r.0, r.1),
{
    let p = Pagination::new(
        match page { Some(x) => x, None => Pagination::default().page },
        match page_size { Some(x) => x, None => Pagination::default().page_size },
    );
    let s = SortQuery::new(
        match sort_by { Some(x) => x, None => SortQuery::default().sort_by },
        match sort_order { Some(x) => x, None => SortQuery::default().sort_order },
    );
    (p, s)
}

/// Filter of a task-instance listing.
#[derive(Debug, Clone)]
pub struct TaskInstanceFilter {
    pub task_id: Option<String>,
    pub status: Option<TaskInstanceStatus>,
}

/// A task-instance listing within a tenant.
#[derive(Debug, Clone)]
pub struct TaskInstanceQuery {
    pub tenant_id: String,
    pub filter: TaskInstanceFilter,
    pub pagination: Pagination,
    pub sort: SortQuery,
}

/// Query parameters of `GET /task/instance`.
#[derive(Debug, Clone)]
pub struct ListTaskInstancesRequest {
    pub task_id: Option<String>,
    pub status: Option<TaskInstanceStatus>,
    pub page: Option<u64>,
    pub page_size: Option<u64>,
    pub sort_by: Option<String>,
    pub sort_order: Option<String>,
}

impl ListTaskInstancesRequest {
    /// The query the request asks for; the tenant is filled in by the caller.
    pub fn into_query(self) -> (q: TaskInstanceQuery)
        ensures
            q.tenant_id@ == Seq::<char>::empty(),
            q.filter.task_id == self.task_id,
            q.filter.status == self.status,
            resolved_paging(self.page, self.page_size, self.sort_by, self.sort_order, q.pagination, q.sort),
    {
        let (pagination, sort) = resolve_paging(self.page, self.page_size, self.sort_by, self.sort_order);
        TaskInstanceQuery {
            tenant_id: String::new(),
            filter: TaskInstanceFilter { task_id: self.task_id, status: self.status },
            pagination,
            sort,
        }
    }
}

/// Filter of a workflow-instance listing.
#[derive(Debug, Clone)]
pub struct WorkflowInstanceFilter {
    pub workflow_meta_id: Option<String>,
    pub version: Option<u32>,
    pub status: Option<WorkflowInstanceStatus>,
}

/// A workflow-instance listing within a tenant.
#[derive(Debug, Clone)]
pub struct WorkflowInstanceQuery {
    pub tenant_id: String,
    pub filter: WorkflowInstanceFilter,
    pub pagination: Pagination,
    pub sort: SortQuery,
}

/// Query parameters of `GET /workflow/instance`.
#[derive(Debug, Clone)]
pub struct ListWorkflowInstancesRequest {
    pub workflow_meta_id: Option<String>,
    pub version: Option<u32>,
    pub status: Option<WorkflowInstanceStatus>,
    pub page: Option<u64>,
    pub page_size: Option<u64>,
    pub sort_by: Option<String>,
    pub sort_order: Option<String>,
}

impl ListWorkflowInstancesRequest {
    /// The query the request asks for; the tenant is filled in by the caller.
    pub fn into_query(self) -> (q: WorkflowInstanceQuery)
        ensures
            q.tenant_id@ == Seq::<char>::empty(),
            q.filter.workflow_meta_id == self.workflow_meta_id,
            q.filter.version == self.version,
            q.filter.status == self.status,
            resolved_paging(self.page, self.page_size, self.sort_by, self.sort_order, q.pagination, q.sort),
    {
        let (pagination, sort) = resolve_paging(self.page, self.page_size, self.sort_by, self.sort_order);
        WorkflowInstanceQuery {
            tenant_id: String::new(),
            filter: WorkflowInstanceFilter {
                workflow_meta_id: self.workflow_meta_id,
                version: self.version,
                status: self.status,
            },
            pagination,
            sort,
        }
    }
}

} // verus!
