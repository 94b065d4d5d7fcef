pub mod ending;
pub mod extraction;
pub mod polling;
pub mod results_page;
pub mod signing_in;
pub mod steps;
