//! A library around the Guild Wars 2 official API v2 and the Guild Wars 2 Wiki
//! read API: request models, path normalization, query construction, id
//! chunking, response classification, the public endpoint registry and the
//! decisions of the command-line and MCP front ends.
pub mod api;
pub mod cli;
pub mod config;
pub mod error;
pub mod gw2;
pub mod mcp;
pub mod outside;
pub mod text;
pub mod wiki;
