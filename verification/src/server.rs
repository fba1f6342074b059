//! The server that the loaders serve, and the parts it is made of.

use vstd::prelude::*;

verus! {

/// A GraphQL server. It carries no settings yet; `build` is where they will
/// take effect.
#[derive(Debug, Clone, Copy, PartialEq, Eq, Structural)]
pub struct GraphQLServer {}

impl GraphQLServer {
    /// A server with the default settings.
    pub fn new() -> (server: Self)
        ensures
            server == (GraphQLServer {  }),
    {
        GraphQLServer {  }
    }

    /// Finishes the server's setup. With no settings to apply, the server
    /// comes back as it is.
    pub fn build(self) -> (server: Self)
        ensures
            server == self,
    {
        self
    }
}

impl Default for GraphQLServer {
    fn default() -> (server: Self)
        ensures
            server == (GraphQLServer {  }),
    {
        GraphQLServer::new()
    }
}

/// The server's side towards HTTP. It carries no settings yet.
#[derive(Debug, Clone, Copy, PartialEq, Eq, Structural)]
pub struct HttpServer;

impl HttpServer {
    /// An HTTP server.
    pub fn new() -> (server: Self)
        ensures
            server == HttpServer,
    {
        HttpServer
    }
}

impl Default for HttpServer {
    fn default() -> (server: Self)
        ensures
            server == HttpServer,
    {
        HttpServer::new()
    }
}

/// Where schemas and queries are kept. It carries no settings yet.
#[derive(Debug, Clone, Copy, PartialEq, Eq, Structural)]
pub struct PersistenceLayer;

impl PersistenceLayer {
    /// A persistence layer.
    pub fn new() -> (layer: Self)
        ensures
            layer == PersistenceLayer,
    {
        PersistenceLayer
    }
}

impl Default for PersistenceLayer {
    fn default() -> (layer: Self)
        ensures
            layer == PersistenceLayer,
    {
        PersistenceLayer::new()
    }
}

/// Takes GraphQL requests. It carries no settings yet.
#[derive(Debug, Clone, Copy, PartialEq, Eq, Structural)]
pub struct GraphQLHandler;

impl GraphQLHandler {
    /// A GraphQL handler.
    pub fn new() -> (handler: Self)
        ensures
            handler == GraphQLHandler,
    {
        GraphQLHandler
    }
}

impl Default for GraphQLHandler {
    fn default() -> (handler: Self)
        ensures
            handler == GraphQLHandler,
    {
        GraphQLHandler::new()
    }
}

/// Takes REST requests. It carries no settings yet.
#[derive(Debug, Clone, Copy, PartialEq, Eq, Structural)]
pub struct RestHandler;

impl RestHandler {
    /// A REST handler.
    pub fn new() -> (handler: Self)
        ensures
            handler == RestHandler,
    {
        RestHandler
    }
}

impl Default for RestHandler {
    fn default() -> (handler: Self)
        ensures
            handler == RestHandler,
    {
        RestHandler::new()
    }
}

} // verus!
