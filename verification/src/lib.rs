//! Push-completion-triggered merge-request pipeline for a GitLab-style host:
//! paginated retrieval of the project listing, assignee resolution from a
//! free-form query, project matching against the local remote URL, and
//! merge-request payload assembly, as one verified decision core. All network
//! and git I/O stays with the caller, which feeds results back as events.

pub mod data;
pub mod error;
pub mod git;
pub mod http;
pub mod pipeline;
pub mod text;
