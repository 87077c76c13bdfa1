pub mod memory;
pub mod pci;
pub mod uart;
pub mod hw;
pub mod devicetree;
pub mod boot;
