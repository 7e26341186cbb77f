//! A tutorial runner for a small data-transformation language: the lesson
//! catalog, the value model that judges answers, and the session controller
//! that steps a learner through the curriculum.

pub mod laws;
pub mod lesson;
pub mod session;
pub mod value;
