pub mod connect;
pub mod descriptor;
pub mod printer_model;
pub mod printer_profile;
pub mod resolver;
pub mod scripted;
pub mod transfer;
