//! Dependence modelling: the structure of vine copulas.

pub mod vine_copula_builder;
