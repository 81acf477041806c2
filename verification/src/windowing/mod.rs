pub mod labels;
