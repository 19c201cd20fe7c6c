/*!
Interface-driven code generation.

Given a declarative description of an interface — a named, ordered set of
operations with typed parameters and return values, plus optional associated
types and constants — this crate mechanically derives implementations of that
interface for a target type.  Three derivation strategies are supported:
direct delegation to a named subordinate value or peer type (member
forwarding), broadcast-and-aggregate dispatch across a collection of children
(cables), and compilation of the interface into a closed message-passing
protocol: a request/response pair of tagged unions together with a routine
dispatching each request to the underlying operation.

The whole pipeline is a pure source-to-source transformation: raw
declarations are normalized into canonical signatures, an interface is
located either inline or by path inside a parsed definition source, and the
chosen strategy turns the item list into an implementation block.
*/

pub mod cable;
pub mod counted_text;
pub mod dispatch_cable;
pub mod errors;
pub mod foreign;
pub mod forward_sub;
pub mod helpers;
pub mod inject_implement;
pub mod locate;
pub mod make_client;
pub mod make_dispatcher;
pub mod model;
pub mod parse;
pub mod render;
pub mod rpc;
pub mod text;
pub mod tokens;
