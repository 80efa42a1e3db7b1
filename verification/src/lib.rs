//! A front end for the Concise Data Definition Language: a lexer, a
//! recursive-descent parser that builds a syntax tree, and an index that finds
//! the parent of any node of that tree.
pub mod ast;
pub mod copy;
pub mod equality;
pub mod grammar;
pub mod joined;
pub mod lexer;
pub mod locality;
pub mod parser;
pub mod scanner;
pub mod token;
pub mod validator;
pub mod visitor;
