//! Code generation for using plain structs as trait objects, and for
//! building mock objects of a trait out of an `impl` block.

pub mod cat_obj;
pub mod tokens;
pub mod brackets;
pub mod syntax;
pub mod closure_expr;
pub mod closure_type;
pub mod attr_syntax;
pub mod impl_syntax;
pub mod mock_struct;
pub mod impl_trait;
pub mod init_mock;
pub mod nostrumock_macros;
pub mod nostrum_attr;
pub mod nostrum_macros;
