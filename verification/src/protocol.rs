//! The query surface: an opaque query identifier, a session context and
//! the raw statement text a client hands in.

use vstd::prelude::*;

verus! {

/// Opaque identifier of one client query.
#[derive(Debug, Clone, Copy, PartialEq, Eq, Hash, Structural)]
pub struct QueryId(pub u64);

impl QueryId {
    /// Wrap a raw identifier value.
    pub fn new(id: u64) -> (r: QueryId)
        ensures
            r.0 == id,
    {
        QueryId(id)
    }
}

/// Session context a query carries: the catalog and database it is
/// resolved against, and the requesting user.
#[derive(Debug, PartialEq, Eq)]
pub struct QueryContext {
    pub catalog: String,
    pub database: String,
    pub user: String,
}

impl Clone for QueryContext {
    /// A clone is the same context.
    fn clone(&self) -> (r: Self)
        ensures
            r == *self,
    {
        QueryContext {
            catalog: self.catalog.clone(),
            database: self.database.clone(),
            user: self.user.clone(),
        }
    }
}

/// One client query: free-form statement text plus its context.
#[derive(Debug, PartialEq, Eq)]
pub struct Query {
    context: QueryContext,
    content: String,
}

impl Clone for Query {
    /// A clone is the same query.
    fn clone(&self) -> (r: Self)
        ensures
            r == *self,
    {
        Query { context: self.context.clone(), content: self.content.clone() }
    }
}

impl Query {
    /// A query over the given context and statement text.
    pub fn new(context: QueryContext, content: String) -> (r: Query)
        ensures
            r.spec_context() == context,
            r.spec_content() == content,
    {
        Query { context, content }
    }

    /// The session context.
    pub closed spec fn spec_context(self) -> QueryContext {
        self.context
    }

    /// The raw statement text.
    pub closed spec fn spec_content(self) -> String {
        self.content
    }

    /// The session context.
    pub fn context(&self) -> (r: &QueryContext)
        ensures
            *r == self.spec_context(),
    {
        &self.context
    }

    /// The raw statement text.
    pub fn content(&self) -> (r: &String)
        ensures
            *r == self.spec_content(),
    {
        &self.content
    }
}

/// The resolved session a query executes under.
#[derive(Debug, PartialEq, Eq)]
pub struct SessionCtx {
    pub catalog: String,
    pub database: String,
}

impl Clone for SessionCtx {
    /// A clone is the same session.
    fn clone(&self) -> (r: Self)
        ensures
            r == *self,
    {
        SessionCtx { catalog: self.catalog.clone(), database: self.database.clone() }
    }
}

impl SessionCtx {
    /// The resolved catalog name.
    pub fn catalog(&self) -> (r: &String)
        ensures
            *r == self.catalog,
    {
        &self.catalog
    }

    /// The resolved database name.
    pub fn database(&self) -> (r: &String)
        ensures
            *r == self.database,
    {
        &self.database
    }
}

/// Builds one session per query from the query's context.
#[derive(Debug, Clone, PartialEq, Eq, Structural)]
pub struct SessionCtxFactory {}

impl SessionCtxFactory {
    /// An empty factory.
    pub fn new() -> (r: SessionCtxFactory)
        ensures
            r == (SessionCtxFactory {  }),
    {
        SessionCtxFactory {  }
    }

    /// A session scoped to exactly the catalog and database the query
    /// context names.
    pub fn create_session_ctx(&self, context: &QueryContext) -> (r: SessionCtx)
        ensures
            r.catalog == context.catalog,
            r.database == context.database,
    {
        SessionCtx { catalog: context.catalog.clone(), database: context.database.clone() }
    }
}

} // verus!
