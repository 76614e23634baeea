//! Decision logic of a visual-regression runner: it matches each latest
//! screenshot to its baseline, classifies the comparison, names the diagnostic
//! artifacts and aggregates the outcomes into a report. All file-system work
//! and the pixel comparison are performed by the caller, which feeds their
//! results back as events.

pub mod folder;
pub mod laws;
pub mod outcome;
pub mod paths;
pub mod report;
pub mod run;
pub mod table;
pub mod worker;
