//! Data types of the Overpass protocol.

use vstd::prelude::*;
use std::collections::HashMap;
use crate::error::CellError;
use crate::state::boc::cell::{Cell, CellView};
use crate::types::ovp_ops::ChannelOpCode;

verus! {

/// The kinds of cells.
#[derive(Clone, Copy, Debug, PartialEq, Eq, Structural)]
pub enum CellType {
    Ordinary,
    PrunedBranch,
    LibraryReference,
    MerkleProof,
    MerkleUpdate,
}

/// The byte that encodes a cell type.
pub open spec fn cell_type_byte(t: CellType) -> u8 {
    match t {
        CellType::Ordinary => 0,
        CellType::PrunedBranch => 1,
        CellType::LibraryReference => 2,
        CellType::MerkleProof => 3,
        CellType::MerkleUpdate => 4,
    }
}

/// The cell type that a byte encodes, if any.
pub open spec fn cell_type_from_byte(v: u8) -> Option<CellType> {
    match v {
        0 => Some(CellType::Ordinary),
        1 => Some(CellType::PrunedBranch),
        2 => Some(CellType::LibraryReference),
        3 => Some(CellType::MerkleProof),
        4 => Some(CellType::MerkleUpdate),
        _ => None,
    }
}

impl CellType {
    /// The byte that encodes this cell type.
    pub fn to_u8(&self) -> (r: u8)
        ensures
            r == cell_type_byte(*self),
    {
        match self {
            CellType::Ordinary => 0,
            CellType::PrunedBranch => 1,
            CellType::LibraryReference => 2,
            CellType::MerkleProof => 3,
            CellType::MerkleUpdate => 4,
        }
    }

    /// Decodes a cell type; `InvalidData` for a byte above 4.
    pub fn from_u8(value: u8) -> (r: Result<CellType, CellError>)
        ensures
            match cell_type_from_byte(value) {
                Some(t) => r == Ok::<CellType, CellError>(t),
                None => r == Err::<CellType, CellError>(CellError::InvalidData),
            },
    {
        match value {
            0 => Ok(CellType::Ordinary),
            1 => Ok(CellType::PrunedBranch),
            2 => Ok(CellType::LibraryReference),
            3 => Ok(CellType::MerkleProof),
            4 => Ok(CellType::MerkleUpdate),
            _ => Err(CellError::InvalidData),
        }
    }
}

/// Each cell type is decoded from its own byte, and a byte that decodes is
/// the byte of what it decodes to.
pub proof fn lemma_cell_type_byte_roundtrip(t: CellType, v: u8)
    ensures
        cell_type_from_byte(cell_type_byte(t)) == Some(t),
        cell_type_from_byte(v) matches Some(u) ==> cell_type_byte(u) == v,
{
}

/// A reference from one cell to another: the index of the target and the
/// hash expected of it.
#[derive(Clone, Copy, Debug, PartialEq, Eq)]
pub struct CellReference {
    pub cell_index: usize,
    pub merkle_hash: [u8; 32],
}

/// A reference as a mathematical value.
pub struct ReferenceView {
    pub cell_index: usize,
    pub merkle_hash: Seq<u8>,
}

impl View for CellReference {
    type V = ReferenceView;

    open spec fn view(&self) -> ReferenceView {
        ReferenceView { cell_index: self.cell_index, merkle_hash: self.merkle_hash@ }
    }
}

/// A bag of cells: the cells, and the indices of the root cells.
#[derive(Debug)]
pub struct BOC {
    pub cells: Vec<Cell>,
    pub roots: Vec<usize>,
}

/// A bag of cells as a mathematical value.
#[verifier::ext_equal]
pub struct BocView {
    pub cells: Seq<CellView>,
    pub roots: Seq<usize>,
}

impl View for BOC {
    type V = BocView;

    open spec fn view(&self) -> BocView {
        BocView { cells: self.cells@.map_values(|c: Cell| c@), roots: self.roots@ }
    }
}

impl BOC {
    /// A bag with no cells and no roots.
    pub fn default() -> (r: BOC)
        ensures
            r@.cells.len() == 0,
            r@.roots.len() == 0,
    {
        BOC { cells: Vec::new(), roots: Vec::new() }
    }
}

/// Balance held in a channel.
pub type ChannelBalance = u64;

/// Identifier of a channel.
pub type ChannelId = [u8; 32];

/// Serialized state of a channel.
pub type ChannelState = String;

/// Nonce of a channel.
pub type ChannelNonce = u64;

/// Sequence number of a channel.
pub type ChannelSeqNo = u64;

/// Proof attached to a channel state.
pub type ChannelProof = [u8; 64];

/// Signature over a channel state.
pub type ChannelSignature = [u8; 64];

/// Digest of a channel transaction.
pub type ChannelTransaction = [u8; 32];

/// Witness of a channel state.
pub type ChannelWitness = Vec<[u8; 32]>;

/// Merkle root of a wallet.
pub type WalletMerkleRoot = [u8; 32];

/// Merkle proof of a channel state.
pub type ChannelMerkleProof = Vec<[u8; 32]>;

/// The private state of a payment channel.
#[derive(Clone, Debug)]
pub struct PrivateChannelState {
    pub balance: ChannelBalance,
    pub nonce: ChannelNonce,
    pub sequence_number: ChannelSeqNo,
    pub proof: ChannelProof,
    pub signature: ChannelSignature,
    pub transaction: ChannelTransaction,
    pub witness: ChannelWitness,
    pub merkle_root: WalletMerkleRoot,
    pub merkle_proof: ChannelMerkleProof,
    pub last_update: u64,
}

/// The life-cycle status of a channel.
#[derive(Clone, Debug)]
pub enum ChannelStatus {
    Active,
    TransactionPending { timeout: u64, reciepent_acceptance: ChannelSignature },
    DisputeOpen { timeout: u64, challenger: [u8; 32] },
    Closing { initiated_at: u64, final_state: Box<PrivateChannelState> },
    Closed,
}

/// An intermediate contract, by identifier and payload.
pub struct IntermediateContract {
    pub id: [u8; 32],
    pub data: Vec<u8>,
}

/// An exporter of intermediate proofs, by identifier and payload.
pub struct IntermediateProofExporter {
    pub id: [u8; 32],
    pub data: Vec<u8>,
}

/// A manager of intermediate trees, by identifier and payload.
pub struct IntermediateTreeManager {
    pub id: [u8; 32],
    pub data: Vec<u8>,
}

/// A validation record, by identifier and payload.
pub struct Validation {
    pub id: [u8; 32],
    pub data: Vec<u8>,
}

/// A settlement record, by identifier and payload.
pub struct SettlementI {
    pub id: [u8; 32],
    pub data: Vec<u8>,
}

/// A wallet verifier, by identifier and payload.
pub struct WalletVerifier {
    pub id: [u8; 32],
    pub data: Vec<u8>,
}

/// Limits of a channel.
#[derive(Clone, Debug)]
pub struct ChannelConfig {
    pub min_balance: u64,
    pub max_balance: u64,
    pub challenge_period: u64,
    pub max_state_size: usize,
    pub max_participants: usize,
}

/// A transfer within a channel.
#[derive(Clone, Debug)]
pub struct Transaction {
    pub id: [u8; 32],
    pub channel_id: [u8; 32],
    pub sender: [u8; 32],
    pub recipient: [u8; 32],
    pub amount: u64,
    pub nonce: u64,
    pub sequence_number: u64,
    pub timestamp: u64,
    pub status: TransactionStatus,
    pub signature: [u8; 64],
    pub zk_proof: Vec<u8>,
    pub merkle_proof: Vec<u8>,
    pub previous_state: Vec<u8>,
    pub new_state: Vec<u8>,
    pub fee: u64,
}

/// A channel contract and the operation last applied to it.
pub struct ChannelContract {
    pub id: ChannelId,
    pub state: ChannelState,
    pub balance: ChannelBalance,
    pub nonce: ChannelNonce,
    pub seqno: ChannelSeqNo,
    pub op_code: ChannelOpCode,
}

/// The status of a transaction.
#[derive(Clone, Copy, Debug, PartialEq, Eq, Structural)]
pub enum TransactionStatus {
    Pending,
    Confirmed,
    Failed,
}

/// Proving keys of the three circuits.
pub struct ProverKeys {
    pub state_key: Vec<u8>,
    pub transfer_key: Vec<u8>,
    pub merkle_key: Vec<u8>,
}

/// Verifying keys of the three circuits.
pub struct VerifierKeys {
    pub state_key: Vec<u8>,
    pub transfer_key: Vec<u8>,
    pub merkle_key: Vec<u8>,
}

/// Marker of the state-transition circuit.
pub struct StateCircuit;

/// Marker of the transfer circuit.
pub struct TransferCircuit;

/// Marker of the Merkle-inclusion circuit.
pub struct MerkleCircuit;

/// Marker of a circuit configuration.
pub struct CircuitConfig;

/// Marker of the prover's circuit data.
pub struct ProverOnlyCircuitData;

/// Marker of the verifier's circuit data.
pub struct VerifierOnlyCircuitData;

/// The kinds of protocol errors.
#[derive(Debug, Clone)]
pub enum SystemErrorType {
    ProofVerificationFailed,
    ChannelError,
    InsufficientBalance,
    InvalidFee,
    InvalidStateTransition,
    InvalidTransaction,
    InvalidSignature,
    InvalidPublicKey,
    InvalidAddress,
    InvalidAmount,
    InvalidChannel,
    InvalidNonce,
    InvalidSequence,
    InvalidTimestamp,
    BatteryError,
    InvalidProof,
    InvalidState,
    InsufficientFunds,
    InsufficientCharge,
    SpendingLimitExceeded,
    InvalidProofData,
    InvalidProofDataLength,
    InvalidProofDataFormat,
    InvalidProofDataSignature,
    InvalidProofDataPublicKey,
    InvalidProofDataHash,
    ChannelNotFound,
    PeerNotFound,
    StorageError(String),
    StakeError(String),
    NetworkError(String),
    ChargingTooFrequent,
    MaxChargingAttemptsExceeded,
}

/// A protocol error with its identifier and payload.
#[derive(Debug)]
pub struct SystemError {
    pub id: [u8; 32],
    pub data: Vec<u8>,
    pub error_type: SystemErrorType,
    pub error_data: SystemErrorData,
    pub error_data_id: [u8; 32],
}

/// The payload of a protocol error.
#[derive(Debug)]
pub struct SystemErrorData {
    pub id: [u8; 32],
    pub data: Vec<u8>,
}

/// Errors of channel operations.
#[derive(Debug)]
pub enum ChannelError {
    InvalidStateTransition,
    InvalidState,
    InvalidSignature,
    InvalidPublicKey,
    InvalidAddress,
    InvalidAmount,
    InvalidChannel,
    InvalidNonce,
    InvalidSequence,
    InvalidTimestamp,
    BatteryError,
    InvalidProof,
    InsufficientFunds,
    InsufficientCharge,
    SpendingLimitExceeded,
    InvalidProofData,
    InvalidProofDataLength,
    InvalidProofDataFormat,
    InvalidProofDataSignature,
    InvalidProofDataPublicKey,
    InvalidProofDataHash,
    ChannelNotFound,
    StorageError(String),
    StakeError(String),
    NetworkError(String),
}

/// An error of the off-chain machine, by identifier and payload.
pub struct OMError {
    pub id: [u8; 32],
    pub data: Vec<u8>,
}

/// The message of an error of the off-chain machine.
pub struct OMErrorData {
    pub message: String,
}

/// The contents of a cell, apart from the cell.
#[derive(Clone, Debug)]
pub struct CellDataSlice {
    pub data: Vec<u8>,
    pub references: Vec<CellReference>,
    pub cell_type: CellType,
    pub merkle_hash: [u8; 32],
}

/// A reference to a cell, apart from the cell.
#[derive(Clone, Debug)]
pub struct CellReferenceSlice {
    pub cell_index: usize,
    pub merkle_hash: [u8; 32],
}

/// Read access to the parts of a cell.
pub trait CellData {
    fn get_data(&self) -> &Vec<u8>;

    fn get_references(&self) -> &Vec<CellReference>;

    fn get_cell_type(&self) -> (r: &CellType);

    fn get_merkle_hash(&self) -> (r: &[u8; 32]);
}

/// The parts of a cell, as read from a slice.
#[derive(Clone, Debug)]
pub struct SliceData {
    pub data: Vec<u8>,
    pub references: Vec<CellReference>,
    pub cell_type: CellType,
    pub merkle_hash: [u8; 32],
}

/// A challenge put to a storage node and its answer.
pub struct ChallengeRecord {
    pub node_id: [u8; 32],
    pub client_id: [u8; 32],
    pub challenge: [u8; 32],
    pub response: [u8; 32],
    pub timestamp: u64,
}

/// The time of the last check of the epidemic protocol.
#[derive(Debug, Clone)]
pub struct EpidemicMetrics {
    pub last_check: u64,
}

/// A new balance and root for a wallet in an epoch.
#[derive(Clone, Debug)]
pub struct WalletStateUpdate {
    pub wallet_id: [u8; 32],
    pub new_balance: u64,
    pub merkle_root: [u8; 32],
    pub epoch_id: u64,
}

/// An epoch of the root contract.
#[derive(Clone, Debug)]
pub struct Epoch {
    pub epoch_id: u64,
    pub root_hash: [u8; 32],
    pub timestamp: u64,
    pub state_commitments: Vec<[u8; 32]>,
    pub status: EpochStatus,
}

/// The status of an epoch.
#[derive(Clone, Copy, Debug, PartialEq, Eq, Structural)]
pub enum EpochStatus {
    Active,
    Finalized,
    Reverted,
}

/// The global state kept by the root contract.
#[derive(Clone, Debug)]
pub struct GlobalState {
    pub global_root_hash: [u8; 32],
    pub total_balance: u64,
    pub active_wallet_count: u64,
    pub last_epoch_id: u64,
    pub state_transitions: Vec<StateTransitionRecord>,
}

/// A transition of the global state.
#[derive(Clone, Debug)]
pub struct StateTransitionRecord {
    pub epoch_id: u64,
    pub root_hash: [u8; 32],
    pub affected_wallet_ids: Vec<[u8; 32]>,
    pub timestamp: u64,
}

/// The epochs seen so far and the current one.
#[derive(Clone, Debug)]
pub struct EpochTracker {
    pub epochs: Vec<Epoch>,
    pub current_epoch_id: u64,
}

/// Raw data collected by a cell builder.
#[derive(Clone, Debug)]
pub struct BuilderData {
    pub data: Vec<u8>,
}

/// The kinds of intermediate operations.
#[derive(Clone, Copy, Debug, PartialEq, Eq, Structural)]
pub enum IntermediateOpType {
    CreateWalletExtension,
    UpdateWalletExtension,
    CloseWalletExtension,
    RebalanceChannels,
    CreateChannel,
    UpdateChannel,
    CloseChannel,
    CreateRoot,
    UpdateRoot,
    CloseRoot,
}

/// Wallet balances and the roots each wallet went through.
#[derive(Clone, Debug)]
pub struct WalletBalanceTracker {
    pub wallet_balances: HashMap<[u8; 32], u64>,
    pub state_transitions: HashMap<[u8; 32], Vec<[u8; 32]>>,
}

/// The history of wallet roots.
#[derive(Clone, Debug)]
pub struct RootStateTracker {
    pub root_history: Vec<WalletRoot>,
}

/// A wallet root with its proofs and aggregated balance.
#[derive(Clone, Debug)]
pub struct WalletRoot {
    pub root_id: [u8; 32],
    pub wallet_merkle_proofs: Vec<[u8; 32]>,
    pub aggregated_balance: u64,
}

/// Data of a wallet extension to create.
#[derive(Clone, Debug)]
pub struct CreateWalletExtensionData {
    pub wallet_id: [u8; 32],
    pub initial_balance: u64,
}

/// Data of a wallet extension to update.
#[derive(Clone, Debug)]
pub struct UpdateWalletExtensionData {
    pub wallet_id: [u8; 32],
    pub new_balance: u64,
}

/// Data of a wallet extension to close.
#[derive(Clone, Debug)]
pub struct CloseWalletExtensionData {
    pub wallet_id: [u8; 32],
    pub final_balance: u64,
}

/// Information common to messages.
#[derive(Clone, Debug)]
pub struct CommonMsgInfo {
    pub data: CommonMsgInfoData,
}

/// The payload of the information common to messages.
#[derive(Clone, Debug)]
pub struct CommonMsgInfoData {
    pub data: Vec<u8>,
}

/// A non-fungible token and its state.
#[derive(Clone, Debug)]
pub struct NFT {
    pub nft_id: [u8; 32],
    pub owner: [u8; 32],
    pub metadata: NFTMetadata,
    pub nonce: u64,
    pub sequence_number: u64,
    pub last_update: u64,
    pub status: ChannelStatus,
}

/// Name, description and image of a non-fungible token.
#[derive(Clone, Debug)]
pub struct NFTMetadata {
    pub name: String,
    pub description: String,
    pub image: String,
}

/// An amount of the native token and its recipient.
#[derive(Clone, Debug)]
pub struct OVPToken {
    pub amount: u64,
    pub recipient: [u8; 32],
}

/// An off-chain payment: its kind and its data.
#[derive(Clone, Debug)]
pub struct OffchainPayment {
    pub payment_type: PaymentType,
    pub data: PaymentData,
}

/// The kinds of payments.
#[derive(Clone, Copy, Debug, PartialEq, Eq, Structural)]
pub enum PaymentType {
    Ovp,
    Jetton,
    Nft,
}

/// The data of a payment of each kind.
#[derive(Clone, Debug)]
pub enum PaymentData {
    Ovp(OVPToken),
    Jetton(JettonPayment),
    Nft(NFTPayment),
}

/// A payment in a jetton.
#[derive(Clone, Debug)]
pub struct JettonPayment {
    pub jetton_id: [u8; 32],
    pub amount: u64,
    pub recipient: [u8; 32],
}

/// A transfer of a non-fungible token.
#[derive(Clone, Debug)]
pub struct NFTPayment {
    pub nft_id: [u8; 32],
    pub recipient: [u8; 32],
}

/// The status of a payment.
#[derive(Clone, Copy, Debug, PartialEq, Eq, Structural)]
pub enum PaymentStatus {
    Pending,
    Confirmed,
    Failed,
}

/// The outcome of processing a transaction.
#[derive(Clone, Debug)]
pub enum ProcessingStatus {
    Success,
    ChannelClosed,
    StatesAggregated,
    Failed(String),
}

/// A request of a client to the network.
#[derive(Clone, Debug)]
pub struct ClientNetworkRequest {
    pub client_id: [u8; 32],
    pub message: MessageType,
}

/// The network's answer to a client.
#[derive(Clone, Debug)]
pub struct ClientNetworkResponse {
    pub client_id: [u8; 32],
    pub response: NetworkResponse,
    pub timestamp: u64,
}

/// A request to a storage node.
#[derive(Clone, Debug)]
pub struct StorageNetworkRequest {
    pub storage_id: [u8; 32],
    pub message: StorageMessageType,
    pub timestamp: u64,
}

/// The kinds of storage requests.
#[derive(Clone, Debug)]
pub enum StorageMessageType {
    RetrieveData { key: [u8; 32] },
    StoreData { key: [u8; 32], value: Vec<u8> },
    VerifyState { state_root: [u8; 32], proof: Vec<u8> },
}

/// The answer of a storage node, with the data retrieved if any.
#[derive(Clone, Debug)]
pub struct StorageNetworkResponse {
    pub storage_id: [u8; 32],
    pub response: NetworkResponse,
    pub data: Option<Vec<u8>>,
    pub timestamp: u64,
}

/// The kinds of client messages.
#[derive(Clone, Debug)]
pub enum MessageType {
    TransactionMessage(TransactionMessage),
    StateUpdateMessage(StateUpdateMessage),
    ValidationRequestMessage(ValidationRequestMessage),
}

/// A transfer announced on the network.
#[derive(Clone, Debug)]
pub struct TransactionMessage {
    pub transaction_id: [u8; 32],
    pub sender: [u8; 32],
    pub recipient: [u8; 32],
    pub amount: u64,
    pub timestamp: u64,
    pub signature: [u8; 64],
}

/// A state update announced on the network.
#[derive(Clone, Debug)]
pub struct StateUpdateMessage {
    pub wallet_id: [u8; 32],
    pub new_balance: u64,
    pub merkle_root: [u8; 32],
    pub epoch_id: u64,
    pub timestamp: u64,
}

/// A request to validate a payload.
#[derive(Clone, Debug)]
pub struct ValidationRequestMessage {
    pub request_id: [u8; 32],
    pub payload: Vec<u8>,
    pub timestamp: u64,
}

/// Success or failure of a network request.
#[derive(Clone, Debug)]
pub enum NetworkResponse {
    Success { message_id: [u8; 32] },
    Failure { message_id: [u8; 32], error: String },
}

/// A request between servers.
#[derive(Clone, Debug)]
pub struct ServerNetworkRequest {
    pub server_id: [u8; 32],
    pub message: MessageType,
    pub timestamp: u64,
}

/// The answer to a request between servers.
#[derive(Clone, Debug)]
pub struct ServerNetworkResponse {
    pub server_id: [u8; 32],
    pub response: NetworkResponse,
    pub timestamp: u64,
}

/// A message of the epidemic protocol.
#[derive(Clone, Debug)]
pub struct EpidemicMessage {
    pub node_id: [u8; 32],
    pub message_type: EpidemicMessageType,
    pub payload: Vec<u8>,
    pub timestamp: u64,
}

/// The kinds of epidemic messages.
#[derive(Clone, Copy, Debug, PartialEq, Eq, Structural)]
pub enum EpidemicMessageType {
    StateSync,
    BatteryUpdate,
    PeerDiscovery,
    ReplicationRequest,
}

/// The state of the Bitcoin bridge.
#[derive(Clone, Debug)]
pub struct BTCBridgeState {
    pub btc_address: [u8; 32],
    pub locked_amount: u64,
    pub proof_height: u32,
    pub required_confirmations: u32,
    pub status: BridgeStatus,
}

/// Proof of a Bitcoin transaction.
#[derive(Clone, Debug)]
pub struct BTCProof {
    pub tx_hash: [u8; 32],
    pub merkle_proof: Vec<[u8; 32]>,
    pub block_header: [u8; 80],
    pub confirmation_height: u32,
}

/// The state of the Ethereum bridge.
#[derive(Clone, Debug)]
pub struct ETHBridgeState {
    pub eth_address: [u8; 20],
    pub locked_amount: u128,
    pub chain_id: u64,
    pub status: BridgeStatus,
}

/// Proof of an Ethereum transaction.
#[derive(Clone, Debug)]
pub struct ETHProof {
    pub tx_hash: [u8; 32],
    pub receipt_proof: Vec<u8>,
    pub block_number: u64,
    pub contract_address: [u8; 20],
}

/// The state of the TON bridge.
#[derive(Clone, Debug)]
pub struct TONBridgeState {
    pub ton_address: [u8; 32],
    pub locked_amount: u128,
    pub workchain_id: i32,
    pub status: BridgeStatus,
}

/// Proof of a TON message.
#[derive(Clone, Debug)]
pub struct TONProof {
    pub message_hash: [u8; 32],
    pub proof: Vec<u8>,
    pub block_proof: Vec<u8>,
    pub merkle_proof: Vec<u8>,
}

/// The status of a bridge.
#[derive(Clone, Copy, Debug, PartialEq, Eq, Structural)]
pub enum BridgeStatus {
    Pending,
    Locked,
    Released,
    Failed,
}

/// A transfer between two chains.
#[derive(Clone, Debug)]
pub struct CrossChainTransaction {
    pub source_chain: ChainType,
    pub destination_chain: ChainType,
    pub source_tx: Vec<u8>,
    pub proof: BridgeProof,
    pub amount: u128,
    pub recipient: [u8; 32],
    pub timestamp: u64,
}

/// The chains a bridge connects.
#[derive(Clone, Copy, Debug, PartialEq, Eq, Hash, Structural)]
pub enum ChainType {
    Bitcoin,
    Ethereum,
    TON,
    Overpass,
}

/// A proof from one of the bridged chains.
#[derive(Clone, Debug)]
pub enum BridgeProof {
    BTC(BTCProof),
    ETH(ETHProof),
    TON(TONProof),
}

/// Per-chain limits and addresses of the bridge.
#[derive(Clone, Debug)]
pub struct BridgeConfig {
    pub min_confirmation_blocks: HashMap<ChainType, u32>,
    pub max_transaction_amount: HashMap<ChainType, u128>,
    pub bridge_contracts: HashMap<ChainType, Vec<u8>>,
    pub relayer_addresses: HashMap<ChainType, Vec<u8>>,
    pub validation_threshold: u32,
}

/// The operations of the bridge.
#[derive(Clone, Debug)]
pub enum BridgeOperation {
    Lock { chain: ChainType, amount: u128, recipient: [u8; 32] },
    Release { chain: ChainType, proof: BridgeProof, recipient: [u8; 32] },
    Validate { operation_id: [u8; 32], proof: BridgeProof },
}

/// The answer of the external API.
#[derive(Debug)]
pub struct ApiResponse<T> {
    pub success: bool,
    pub data: Option<T>,
    pub error: Option<String>,
    pub timestamp: u64,
}

/// An error of the external API.
#[derive(Debug)]
pub struct ApiError {
    pub code: u32,
    pub message: String,
    pub details: Option<String>,
}

/// A validation rule and its parameters.
#[derive(Clone, Debug)]
pub struct ValidationRule {
    pub rule_id: u32,
    pub rule_type: ValidationRuleType,
    pub parameters: HashMap<String, String>,
    pub is_active: bool,
}

/// The kinds of validation rules.
#[derive(Clone, Copy, Debug, PartialEq, Eq, Structural)]
pub enum ValidationRuleType {
    TransactionLimit,
    BalanceCheck,
    ProofVerification,
    StateConsistency,
    BatteryLevel,
    NetworkHealth,
}

/// The configuration of the whole system.
#[derive(Clone, Debug)]
pub struct SystemConfig {
    pub network: NetworkConfig,
    pub storage: StorageConfig,
    pub metrics: MetricsConfig,
}

/// Network settings.
#[derive(Clone, Debug)]
pub struct NetworkConfig {
    pub max_peers: u32,
    pub target_peer_count: u32,
    pub ping_interval: u64,
    pub sync_interval: u64,
    pub max_sync_batch: u32,
}

/// Storage settings.
#[derive(Clone, Debug)]
pub struct StorageConfig {
    pub max_storage_size: u64,
    pub garbage_collection_interval: u64,
    pub replication_factor: u32,
    pub max_batch_size: u32,
}

/// Metrics settings.
#[derive(Clone, Debug)]
pub struct MetricsConfig {
    pub collection_interval: u64,
    pub retention_period: u64,
    pub max_metrics_size: u64,
}

/// A proposal of a new state root and the votes on it.
#[derive(Clone, Debug)]
pub struct ProposalState {
    pub proposal_id: [u8; 32],
    pub proposer: [u8; 32],
    pub epoch: u64,
    pub state_root: [u8; 32],
    pub votes: HashMap<[u8; 32], Vote>,
    pub timestamp: u64,
    pub status: ProposalStatus,
}

/// The status of a proposal.
#[derive(Clone, Copy, Debug, PartialEq, Eq, Structural)]
pub enum ProposalStatus {
    Pending,
    Voting,
    Accepted,
    Rejected,
    Timeout,
}

/// A validator's vote.
#[derive(Clone, Debug)]
pub struct Vote {
    pub validator: [u8; 32],
    pub vote_type: VoteType,
    pub signature: [u8; 64],
    pub timestamp: u64,
}

/// The kinds of votes.
#[derive(Clone, Copy, Debug, PartialEq, Eq, Structural)]
pub enum VoteType {
    Accept,
    Reject,
    Abstain,
}

/// A proposal message.
#[derive(Clone, Debug)]
pub struct ProposalMessage {
    pub proposal_id: [u8; 32],
    pub epoch: u64,
    pub state_root: [u8; 32],
    pub previous_root: [u8; 32],
    pub timestamp: u64,
    pub proposer_signature: [u8; 64],
}

/// A vote message.
#[derive(Clone, Debug)]
pub struct VoteMessage {
    pub proposal_id: [u8; 32],
    pub vote: Vote,
    pub justification: Option<Vec<u8>>,
}

/// A commit message with the validators' signatures.
#[derive(Clone, Debug)]
pub struct CommitMessage {
    pub proposal_id: [u8; 32],
    pub commit_root: [u8; 32],
    pub signatures: Vec<([u8; 32], [u8; 64])>,
    pub timestamp: u64,
}

/// A synchronisation message over a range of epochs.
#[derive(Clone, Debug)]
pub struct SyncMessage {
    pub from_epoch: u64,
    pub to_epoch: u64,
    pub roots: Vec<[u8; 32]>,
    pub proof: Vec<u8>,
}

/// The side of an order.
#[derive(Clone, Copy, Debug, PartialEq, Eq, Structural)]
pub enum OrderSide {
    Buy,
    Sell,
}

/// The status of an order.
#[derive(Clone, Copy, Debug, PartialEq, Eq, Structural)]
pub enum OrderStatus {
    Open,
    PartiallyFilled,
    Filled,
    Cancelled,
}

/// A liquidity pool of two tokens.
#[derive(Clone, Debug)]
pub struct LiquidityPool {
    pub pool_id: [u8; 32],
    pub token_a: [u8; 32],
    pub token_b: [u8; 32],
    pub reserve_a: u64,
    pub reserve_b: u64,
    pub total_shares: u64,
    pub fee_rate: u64,
    pub last_update: u64,
}

/// A Merkle proof.
#[derive(Clone, Debug)]
pub struct MerkleProof {}


} // verus!
