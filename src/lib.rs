//! Decision logic of a small statistics library: how the Student's t and
//! noncentral t distribution functions are evaluated, the node weights of the
//! quadrature behind the incomplete Beta function, and the result types of
//! the hypothesis tests and treatment-effect estimators built on them.
pub mod binary_treatment;
pub mod conditional_binary_treatment;
pub mod noncentral;
pub mod quadrature;
pub mod student;
