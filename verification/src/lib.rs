//! A tabbed document viewer core: styled document lines, scrollable pages
//! and a circular tab selector, with every operation carrying a proved
//! contract.

pub mod document;
pub mod shell;
pub mod style;
pub mod surface;
pub mod tabs;
