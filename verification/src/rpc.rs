//! The query side of the catalogue: which block a query is answered at and
//! how a failed query is reported to the asker.

use vstd::prelude::*;
use std::marker::PhantomData;
use std::sync::Arc;
use vstd::string::StringExecFns;
use crate::action::Action;

verus! {

/// The code under which a failure of the runtime is reported.
pub const RUNTIME_ERROR: i64 = 8000;

/// A failure as the asker sees it.
#[derive(Clone, Debug, PartialEq, Eq)]
pub struct RpcError {
    pub code: i64,
    pub message: String,
    pub data: Option<String>,
}

/// Answers queries about the catalogue through a client of type `C`, for
/// blocks of type `P`.
pub struct ActionRpcHandler<C, P> {
    client: Arc<C>,
    _marker: PhantomData<P>,
}

impl<C, P> ActionRpcHandler<C, P> {
    /// The client that this handler asks.
    pub closed spec fn spec_client(&self) -> Arc<C> {
        self.client
    }

    /// A handler that asks `client`.
    pub fn new(client: Arc<C>) -> (handler: Self)
        ensures
            handler.spec_client() == client,
    {
        Self { client, _marker: PhantomData }
    }

    /// The client that this handler asks.
    pub fn client(&self) -> (client: &Arc<C>)
        ensures
            *client == self.spec_client(),
    {
        &self.client
    }

    /// The block at which a query is answered: the one asked for, or else
    /// the best block known.
    pub fn block_to_query<H>(at: Option<H>, best: H) -> (block: H)
        ensures
            block == (match at {
                Some(asked) => asked,
                None => best,
            }),
    {
        match at {
            Some(asked) => asked,
            None => best,
        }
    }

    /// Hands on the catalogue that the runtime returned, or reports why the
    /// runtime could not return it.
    pub fn all_actions(&self, answer: Result<Vec<Action>, String>) -> (result: Result<
        Vec<Action>,
        RpcError,
    >)
        ensures
            match answer {
                Ok(actions) => result == Ok::<Vec<Action>, RpcError>(actions),
                Err(reason) => result matches Err(error) && error.code == RUNTIME_ERROR
                    && error.message@ == "Unable to query all actions."@ && error.data == Some(
                    reason,
                ),
            },
    {
        match answer {
            Ok(actions) => Ok(actions),
            Err(reason) => Err(
                RpcError {
                    code: RUNTIME_ERROR,
                    message: String::from_str("Unable to query all actions."),
                    data: Some(reason),
                },
            ),
        }
    }
}

} // verus!
