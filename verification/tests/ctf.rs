use polymarket_orders::ctf::{Client, ContractConfig, CtfError, TransactionResponse, TxOperation};
use polymarket_orders::types::{Address, B256};

fn addr(b: u8) -> Address {
    Address { bytes: [b; 20] }
}

fn config() -> ContractConfig {
    ContractConfig {
        conditional_tokens: addr(1),
        neg_risk_adapter: Some(addr(2)),
        ctf_collateral_adapter: Some(addr(3)),
        neg_risk_ctf_collateral_adapter: Some(addr(4)),
    }
}

#[test]
fn constructors_bind_the_expected_contracts() {
    assert_eq!(Client::new(Some(config()), 137).unwrap(), Client { contract: addr(1), neg_risk_adapter: None });
    assert_eq!(
        Client::with_neg_risk(Some(config()), 137).unwrap(),
        Client { contract: addr(1), neg_risk_adapter: Some(addr(2)) }
    );
    assert_eq!(
        Client::with_neg_risk_v2(Some(config()), 137).unwrap(),
        Client { contract: addr(4), neg_risk_adapter: None }
    );
    assert_eq!(
        Client::with_standard_v2(Some(config()), 137).unwrap(),
        Client { contract: addr(3), neg_risk_adapter: None }
    );
    assert_eq!(Client::new(Some(config()), 137).unwrap().contract_address(), addr(1));
}

#[test]
fn constructors_report_missing_configuration() {
    assert_eq!(Client::new(None, 5), Err(CtfError::ConfigNotFound { chain_id: 5, neg_risk: false }));
    assert_eq!(Client::with_neg_risk(None, 5), Err(CtfError::ConfigNotFound { chain_id: 5, neg_risk: true }));
    let no_adapter = ContractConfig { neg_risk_adapter: None, ..config() };
    assert_eq!(Client::with_neg_risk(Some(no_adapter), 80002), Err(CtfError::NegRiskAdapterMissing { chain_id: 80002 }));
    let bare = ContractConfig { neg_risk_ctf_collateral_adapter: None, ctf_collateral_adapter: None, ..config() };
    assert_eq!(
        Client::with_neg_risk_v2(Some(bare), 80002),
        Err(CtfError::NegRiskV2AdapterNotConfigured { chain_id: 80002 })
    );
    assert_eq!(
        Client::with_standard_v2(Some(bare), 80002),
        Err(CtfError::StandardAdapterNotConfigured { chain_id: 80002 })
    );
}

#[test]
fn v2_clients_refuse_two_argument_calls() {
    let v2 = Client::with_neg_risk_v2(Some(config()), 137).unwrap();
    assert_eq!(v2.neg_risk_adapter_for(TxOperation::NegRiskSplit), Err(CtfError::NegRiskAdapterNotConfigured));
    assert_eq!(v2.neg_risk_adapter_for(TxOperation::NegRiskMerge), Err(CtfError::NegRiskAdapterNotConfigured));
    assert_eq!(v2.neg_risk_adapter_for(TxOperation::NegRiskRedeem), Err(CtfError::NegRiskAdapterNotAvailable));
    let v1 = Client::with_neg_risk(Some(config()), 137).unwrap();
    assert_eq!(v1.neg_risk_adapter_for(TxOperation::NegRiskSplit), Ok(addr(2)));
}

#[test]
fn receipts_become_responses() {
    let hash = B256 { bytes: [5u8; 32] };
    assert_eq!(
        Client::transaction_outcome(TxOperation::Split, hash, true, Some(99)),
        Ok(TransactionResponse { transaction_hash: hash, block_number: 99 })
    );
    assert_eq!(
        Client::transaction_outcome(TxOperation::Merge, hash, false, Some(99)),
        Err(CtfError::Reverted { operation: TxOperation::Merge, transaction_hash: hash, block_number: 99 })
    );
    assert_eq!(
        Client::transaction_outcome(TxOperation::Redeem, hash, false, None),
        Err(CtfError::Reverted { operation: TxOperation::Redeem, transaction_hash: hash, block_number: 0 })
    );
    assert_eq!(Client::transaction_outcome(TxOperation::Redeem, hash, true, None), Err(CtfError::BlockNumberMissing));
}
