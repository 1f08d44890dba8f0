//! Installing the relay's configuration.

use vstd::prelude::*;
use crate::constants::{
    API_URL_KEY, IS_LOCAL_KEY, LEDGER_CANISTER_ID_KEY, LOCAL_MGMT_PRINCIPAL_ID_KEY,
    MINTER_TOKEN_KEY, SUI_MODULE_ID_KEY, SUI_PACKAGE_ID_KEY, TX_DIGEST_URL_KEY,
};
use crate::models::InitArgs;
use crate::store::{insert, BridgeStores};

verus! {

/// Whether every argument is given: none is empty.
pub open spec fn is_complete(args: InitArgs) -> bool {
    &&& args.ledger_canister_id@.len() > 0
    &&& args.local_mgmt_principal_id@.len() > 0
    &&& args.sui_package_id@.len() > 0
    &&& args.sui_module_id@.len() > 0
    &&& args.sufinity_api_url@.len() > 0
    &&& args.tx_digest_url@.len() > 0
    &&& args.is_local@.len() > 0
    &&& args.minter_address_id@.len() > 0
}

/// A configuration with each argument stored under its key.
pub open spec fn installed(config: Map<Seq<char>, Seq<char>>, args: InitArgs) -> Map<
    Seq<char>,
    Seq<char>,
> {
    config.insert(LEDGER_CANISTER_ID_KEY@, args.ledger_canister_id@).insert(
        LOCAL_MGMT_PRINCIPAL_ID_KEY@,
        args.local_mgmt_principal_id@,
    ).insert(SUI_PACKAGE_ID_KEY@, args.sui_package_id@).insert(
        SUI_MODULE_ID_KEY@,
        args.sui_module_id@,
    ).insert(API_URL_KEY@, args.sufinity_api_url@).insert(
        TX_DIGEST_URL_KEY@,
        args.tx_digest_url@,
    ).insert(IS_LOCAL_KEY@, args.is_local@).insert(MINTER_TOKEN_KEY@, args.minter_address_id@)
}

/// Installs the configuration, all of it or none: if any argument is empty
/// nothing is stored. Says whether the configuration was installed. The
/// cursor and the ledgers stay as they are.
pub fn init(stores: &mut BridgeStores, args: InitArgs) -> (done: bool)
    ensures
        done == is_complete(args),
        final(stores).config@ == if done {
            installed(old(stores).config@, args)
        } else {
            old(stores).config@
        },
        final(stores).minted@ == old(stores).minted@,
        final(stores).finalized@ == old(stores).finalized@,
{
    if args.ledger_canister_id.as_str().is_empty()
        || args.local_mgmt_principal_id.as_str().is_empty()
        || args.sui_package_id.as_str().is_empty() || args.sui_module_id.as_str().is_empty()
        || args.sufinity_api_url.as_str().is_empty() || args.tx_digest_url.as_str().is_empty()
        || args.is_local.as_str().is_empty() || args.minter_address_id.as_str().is_empty() {
        return false;
    }
    insert(stores, LEDGER_CANISTER_ID_KEY.to_owned(), args.ledger_canister_id);
    insert(stores, LOCAL_MGMT_PRINCIPAL_ID_KEY.to_owned(), args.local_mgmt_principal_id);
    insert(stores, SUI_PACKAGE_ID_KEY.to_owned(), args.sui_package_id);
    insert(stores, SUI_MODULE_ID_KEY.to_owned(), args.sui_module_id);
    insert(stores, API_URL_KEY.to_owned(), args.sufinity_api_url);
    insert(stores, TX_DIGEST_URL_KEY.to_owned(), args.tx_digest_url);
    insert(stores, IS_LOCAL_KEY.to_owned(), args.is_local);
    insert(stores, MINTER_TOKEN_KEY.to_owned(), args.minter_address_id);
    true
}

} // verus!
