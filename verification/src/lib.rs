pub mod media;
pub mod paths;
pub mod planner;
pub mod strtool;
