//! A small spreadsheet-document model (workbook, worksheets, tables, rows,
//! cells) with an XML serialization, plus converters that build tables from
//! CSV text, directory listings and RSS feeds.

pub mod builders;
pub mod cell;
pub mod cli;
pub mod convert;
pub mod gui;
pub mod num;
pub mod row;
pub mod table;
pub mod trusted;
pub mod workbook;
pub mod worksheet;
pub mod xml;
