pub mod attachment;
