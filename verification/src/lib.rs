pub mod kundli;
