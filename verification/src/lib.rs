//! On-chain address storage: the fixed 512-byte record, the rules that decide
//! whether an instruction may rewrite an account, and the tag byte of the
//! profile program's instructions.

pub mod account;
pub mod error;
pub mod instruction;
pub mod packing;
pub mod processor;
pub mod pubkey;
pub mod record;
pub mod theorems;
pub mod wire;

pub use account::Account;
pub use error::{ProgramError, ProgramResult, Rejection};
pub use packing::{string_to_array, string_to_array_clipped, ADDRESS_LEN};
pub use instruction::EcomInstructionData;
pub use processor::{process_instruction, update_address};
pub use pubkey::Pubkey;
pub use record::{AddressSchema, InstructionData};
pub use wire::LayoutError;
