//! What the GraphQL endpoint answers, and how many executors serve it.
use vstd::prelude::*;

verus! {

/// The HTTP answer of the GraphQL endpoint.
pub enum GraphQLReply {
    /// 200, with the JSON text of the GraphQL response.
    Json(String),
    /// 500, with an empty body.
    InternalServerError,
}

/// The answer for the outcome of executing a request: its JSON text when it
/// ran, an internal server error otherwise.
pub fn graphql_reply<E>(res: Result<String, E>) -> (reply: GraphQLReply)
    ensures
        match res {
            Ok(body) => reply == GraphQLReply::Json(body),
            Err(_) => reply is InternalServerError,
        },
{
    match res {
        Ok(body) => GraphQLReply::Json(body),
        Err(_) => GraphQLReply::InternalServerError,
    }
}

/// The number of database and GraphQL executor threads on a machine with
/// `cpus` processors: half of them, rounded down.
pub fn executor_capacity(cpus: usize) -> (n: usize)
    ensures
        n == cpus / 2,
{
    cpus / 2
}

} // verus!
