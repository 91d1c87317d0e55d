use crate::contract::generator::{
    CellQuery, CellQueryAttribute, CellQueryAttributeView, CellQueryView, QueryStatement,
    QueryStatementView,
};
use crate::contract::schema::{Byte32, SchemaPrimitiveType, Uint128};
use crate::contract::{Contract, ContractCellField, FieldView, InputRule, OutputRule};
use crate::types::transaction::{Transaction, TransactionView};
use vstd::bytes::{
    lemma_auto_spec_u128_to_from_le_bytes, spec_u128_from_le_bytes, spec_u128_to_le_bytes,
};
use vstd::prelude::*;

verus! {

/// The hash of the lock that owns a token: the arguments of the token's
/// script.
pub type OwnerLockHash = SchemaPrimitiveType<[u8; 32], Byte32>;

/// An amount of a token: the data of a token cell.
pub type SudtAmount = SchemaPrimitiveType<u128, Uint128>;

/// The contract of a simple user-defined token.
pub type SudtContract = Contract<OwnerLockHash, SudtAmount>;

/// A token contract for the owner with lock hash `owner`, with an amount of
/// zero and no code yet.
pub fn sudt_contract(owner: [u8; 32]) -> (contract: SudtContract)
    ensures
        contract.args.inner == owner,
        contract.data.inner == 0,
        contract.code is None,
        contract.lock is None,
        contract.type_ is None,
        contract.output_rules@.len() == 0,
        contract.input_rules@.len() == 0,
{
    Contract::new(SchemaPrimitiveType::new(owner), SchemaPrimitiveType::new(0u128))
}

/// A rule on the data of a token cell: it adds `amount` to the cell's
/// amount, and fails where the sum does not fit 128 bits.
pub struct Mint {
    pub amount: u128,
}

impl OutputRule<OwnerLockHash, SudtAmount> for Mint {
    open spec fn outcome(&self, field: FieldView) -> Option<FieldView> {
        match field {
            FieldView::Data(bytes) => if spec_u128_from_le_bytes(bytes) + self.amount <= u128::MAX {
                Some(
                    FieldView::Data(
                        spec_u128_to_le_bytes(
                            (spec_u128_from_le_bytes(bytes) + self.amount) as u128,
                        ),
                    ),
                )
            } else {
                None
            },
            other => Some(other),
        }
    }

    fn apply(&self, field: ContractCellField<OwnerLockHash, SudtAmount>) -> (out: Option<
        ContractCellField<OwnerLockHash, SudtAmount>,
    >) {
        match field {
            ContractCellField::Data(held) => {
                proof {
                    lemma_auto_spec_u128_to_from_le_bytes();
                    let bytes = spec_u128_to_le_bytes(held.inner);
                    assert(bytes.len() == 16);
                    assert(spec_u128_from_le_bytes(bytes) == held.inner);
                    assert(field.model() == FieldView::Data(bytes));
                }
                match held.inner.checked_add(self.amount) {
                    Some(sum) => Some(ContractCellField::Data(SudtAmount::new(sum))),
                    None => None,
                }
            },
            other => Some(other),
        }
    }
}

/// A rule that asks for the cells locked by the lock with hash `lock_hash`,
/// at most `limit` of them, whatever the transaction.
pub struct OwnedBy {
    pub lock_hash: [u8; 32],
    pub limit: u64,
}

impl InputRule for OwnedBy {
    open spec fn query_for(&self, tx: TransactionView) -> CellQueryView {
        CellQueryView {
            _query: QueryStatementView::Single(CellQueryAttributeView::LockHash(self.lock_hash)),
            _limit: self.limit,
        }
    }

    fn query(&self, tx: &Transaction) -> (query: CellQuery) {
        CellQuery {
            _query: QueryStatement::Single(CellQueryAttribute::LockHash(self.lock_hash)),
            _limit: self.limit,
        }
    }
}

} // verus!
