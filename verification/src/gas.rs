//! Gas accounting for one transaction.

use vstd::prelude::*;

verus! {

/// Why gas could not be charged.
#[derive(Debug, Clone, Copy, PartialEq, Eq, Structural)]
pub enum GasError {
    /// The transaction asked for more gas than its limit allows.
    TransactionGasExceeded,
    /// The count of gas does not fit.
    GasOverflow,
}

/// The gas meter of one transaction.
#[derive(Debug, Clone, Copy, PartialEq, Eq, Structural)]
pub struct TxGasMeter {
    /// The most gas the transaction may use.
    pub tx_gas_limit: u64,
    /// The gas it has used.
    pub transaction_gas: u64,
}

impl TxGasMeter {
    /// A meter with the given limit and nothing used.
    pub fn new(tx_gas_limit: u64) -> (r: Self)
        ensures
            r == (TxGasMeter { tx_gas_limit, transaction_gas: 0 }),
    {
        TxGasMeter { tx_gas_limit, transaction_gas: 0 }
    }

    /// What `consume` answers for `gas`.
    pub open spec fn outcome(&self, gas: u64) -> Result<(), GasError> {
        if self.transaction_gas + gas > u64::MAX {
            Err(GasError::GasOverflow)
        } else if self.transaction_gas + gas > self.tx_gas_limit {
            Err(GasError::TransactionGasExceeded)
        } else {
            Ok(())
        }
    }

    /// Charge `gas`. The count moves on unless it would not fit; past the
    /// limit the charge is kept and reported.
    pub fn consume(&mut self, gas: u64) -> (r: Result<(), GasError>)
        ensures
            r == old(self).outcome(gas),
            final(self).tx_gas_limit == old(self).tx_gas_limit,
            r == Err::<(), GasError>(GasError::GasOverflow) ==> *final(self) == *old(self),
            r != Err::<(), GasError>(GasError::GasOverflow) ==> final(self).transaction_gas
                == old(self).transaction_gas + gas,
    {
        match self.transaction_gas.checked_add(gas) {
            None => Err(GasError::GasOverflow),
            Some(total) => {
                self.transaction_gas = total;
                if total > self.tx_gas_limit {
                    Err(GasError::TransactionGasExceeded)
                } else {
                    Ok(())
                }
            },
        }
    }

    /// Charge a wrapper transaction for its own size: one unit of gas for
    /// each byte.
    pub fn add_wrapper_gas(&mut self, tx_bytes: &[u8]) -> (r: Result<(), GasError>)
        ensures
            r == old(self).outcome(tx_bytes@.len() as u64),
            final(self).tx_gas_limit == old(self).tx_gas_limit,
            r == Err::<(), GasError>(GasError::GasOverflow) ==> *final(self) == *old(self),
            r != Err::<(), GasError>(GasError::GasOverflow) ==> final(self).transaction_gas
                == old(self).transaction_gas + tx_bytes@.len(),
    {
        let size: u64 = tx_bytes.len() as u64;
        self.consume(size)
    }
}

} // verus!
