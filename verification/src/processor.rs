//! Command processing: what each command requires of its request, what it
//! asks of the backend, and what happens to the backend's answer.

pub mod data_management;
