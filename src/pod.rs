//! Pods: the records the client hands out about them.
use vstd::prelude::*;

verus! {

#[derive(Debug)]
pub struct PodInfo {
    pub name: String,
    pub address: String,
}

#[derive(Debug)]
pub struct SharedPodInfo {
    pub name: String,
    pub address: String,
    pub username: String,
    pub user_address: String,
    pub shared_time: String,
}

} // verus!
