//! The shape of a transaction of the destination chain.

use vstd::prelude::*;

verus! {

/// A transaction, by format version.
#[derive(Debug, PartialEq)]
pub enum TransactionData {
    V1(TransactionDataV1),
}

/// A transaction: what it does, who sends it, who pays, and until when it
/// may run.
#[derive(Debug, PartialEq)]
pub struct TransactionDataV1 {
    pub kind: TransactionKind,
    pub sender: SuiAddress,
    pub gas_data: GasData,
    pub expiration: TransactionExpiration,
}

/// What a transaction does.
#[derive(Debug, PartialEq)]
pub enum TransactionKind {
    ProgrammableTransaction(ProgrammableTransaction),
}

/// Commands, run in order over the given inputs.
#[derive(Default, Debug, PartialEq)]
pub struct ProgrammableTransaction {
    pub inputs: Vec<CallArg>,
    pub commands: Vec<Command>,
}

/// One command of a programmable transaction.
#[derive(Debug, Clone, PartialEq)]
pub enum Command {
    /// Sends the objects to the address.
    TransferObjects(Vec<Argument>, Argument),
    /// Splits the given amounts off a coin, one new coin for each.
    SplitCoins(Argument, Vec<Argument>),
}

/// What a command is applied to.
#[derive(Debug, PartialEq, Eq, Hash, Clone, Copy)]
pub enum Argument {
    /// The coin that pays for the transaction.
    GasCoin,
    /// An input of the transaction, by position.
    Input(u16),
    /// What an earlier command returned, by the command's position.
    Result(u16),
    /// One of several values that an earlier command returned.
    NestedResult(u16, u16),
}

/// An input of a transaction.
#[derive(Debug, PartialEq, Eq, Hash)]
pub enum CallArg {
    /// A plain value.
    Pure(Vec<u128>),
    /// An object.
    Object(ObjectArg),
}

/// An object that a transaction takes as input.
#[derive(Debug, PartialEq, Eq, Hash)]
pub enum ObjectArg {
    /// An immutable object, or one that the sender owns.
    ImmOrOwnedObject(ObjectRef),
    /// A shared object, and whether the transaction may change it.
    SharedObject { id: ObjectID, initial_shared_version: SequenceNumber, mutable: bool },
    /// An object that the transaction receives.
    Receiving(ObjectRef),
}

/// An address of the destination chain.
#[derive(Eq, Debug, Default, PartialEq, Ord, PartialOrd, Clone, Hash)]
pub struct SuiAddress(pub [u32; 32]);

/// An object at one version: its identifier, the version and its digest.
pub type ObjectRef = (ObjectID, SequenceNumber, ObjectDigest);

/// The digest of an object.
#[derive(Debug, Clone, PartialEq, Eq, PartialOrd, Ord, Hash)]
pub struct ObjectDigest(pub Digest);

/// A digest.
#[derive(Debug, Clone, Default, PartialEq, Eq, PartialOrd, Ord, Hash)]
pub struct Digest(pub [u32; 32]);

/// The identifier of an object.
#[derive(Eq, Debug, PartialEq, Clone, PartialOrd, Ord, Hash)]
pub struct ObjectID(pub AccountAddress);

/// The address of an account.
#[derive(Ord, Debug, PartialOrd, Eq, PartialEq, Hash, Clone)]
pub struct AccountAddress(pub [u32; 32]);

/// The version of an object.
#[derive(Eq, PartialEq, Ord, PartialOrd, Copy, Clone, Hash, Default, Debug)]
pub struct SequenceNumber(pub u64);

/// Who pays for a transaction, with which coins, and how much at most.
#[derive(Default, Debug, Clone, PartialEq)]
pub struct GasData {
    pub payment: Vec<ObjectRef>,
    pub owner: SuiAddress,
    pub price: u64,
    pub budget: u64,
}

/// Until when a transaction may run.
#[derive(Debug, PartialEq, Eq, Hash, Clone, Copy)]
pub enum TransactionExpiration {
    /// Without limit.
    Never,
    /// Up to and including the given epoch.
    Epoch(EpochId),
}

/// The number of an epoch.
pub type EpochId = u64;

} // verus!
