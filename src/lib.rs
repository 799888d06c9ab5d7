//! Job application tracking: the record model, the codec between records and
//! stored values, the statements that read and change stored applications
//! (partial updates among them), and the repository over an embedded SQLite
//! file or a MySQL server. For the front ends it adds the desktop form's
//! model, the shell's command and answer readers, and the text of table
//! cells.
pub mod text;
pub mod date;
pub mod job_application_model;
pub mod error;
pub mod codec;
pub mod statement;
pub mod job_application_repository;
pub mod mysql_backend;
pub mod form;
pub mod display;
pub mod shell_option;
pub mod shell_input;
