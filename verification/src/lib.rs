pub mod contract;
pub mod copy;
pub mod decision;
pub mod text;
pub mod workload;
pub mod capture;
pub mod history;
pub mod request;
pub mod island;
pub mod inventory;
pub mod gateway;
pub mod digest;
pub mod permissions;
pub mod turn;
pub mod evidence;
pub mod action;
pub mod native;
pub mod cloud;
pub mod field_rules;
pub mod relation;
pub mod finalize;
pub mod resolve;
pub mod provisional;
pub mod latest;
pub mod surface;
pub mod group;
pub mod typing;
pub mod references;
