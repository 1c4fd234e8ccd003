//! The state service: what it knows about itself, and the queries that it answers.

use vstd::prelude::*;

use zebra_chain::parameters::Network;

use crate::block::{
    block_event_fits, block_query_next, block_query_start, resume_block, start_block, BlockEvent,
    BlockQuery, BlockStep,
};
use crate::block_header::{
    header_query_next, header_query_start, header_reply_fits, resume_block_header,
    start_block_header, BlockHeaderQuery, BlockHeaderStep,
};
use crate::chain_info::{
    chain_info_at, chain_info_next, chain_info_view, in_height_order, resume_chain_info,
    start_chain_info, ChainInfoQuery, ChainInfoStep, ChainInfoStepView, ChainTip,
    GetBlockChainInfo,
};
use crate::error::{ErrorView, StateServiceError};
use crate::network::{activation_list, can_extrapolate, Timestamp};
use crate::requests::{Reply, RequestView};
use crate::text::MAX_HEIGHT;

verus! {

/// What a service is doing.
#[derive(Clone, Copy, Debug, PartialEq, Eq, Structural)]
pub enum StatusType {
    /// It waits for the validator's state to become ready for the first time.
    Syncing,
    /// It waits for a request.
    Ready,
    /// It cannot take a request at the moment.
    Busy,
    /// It has failed for good.
    CriticalError,
}

/// The outcome of asking the validator's state whether it can take a request.
#[derive(Debug)]
pub enum Readiness {
    /// It can.
    Ready,
    /// It cannot yet.
    Pending,
    /// It never will again, with its account of why.
    Failed(String),
}

/// Software information about the validator.
#[derive(Clone, Debug)]
pub struct GetInfo {
    pub build: String,
    pub subversion: String,
}

/// How the service itself was built.
#[derive(Clone, Debug, PartialEq, Eq)]
pub struct BuildInfo {
    pub commit_hash: String,
    pub branch: String,
    pub build_date: String,
    pub build_user: String,
    pub version: String,
}

/// What a service knows about itself, the network and its validator.
#[derive(Debug)]
pub struct ServiceMetadata {
    pub build_info: BuildInfo,
    pub network: Network,
    pub zebra_build: String,
    pub zebra_subversion: String,
}

/// Chain fetch service backed by the validator's read-only state.
#[derive(Debug)]
pub struct StateService {
    pub data: ServiceMetadata,
    pub status: StatusType,
}

impl StateService {
    /// Makes a service for a validator that has told its build and subversion. The service syncs
    /// until the validator's state is ready to take requests.
    pub fn spawn(
        build_info: BuildInfo,
        network: Network,
        zebra_build: String,
        zebra_subversion: String,
    ) -> (service: StateService)
        ensures
            service.data.build_info == build_info,
            service.data.network == network,
            service.data.zebra_build@ == zebra_build@,
            service.data.zebra_subversion@ == zebra_subversion@,
            service.status == StatusType::Syncing,
    {
        StateService {
            data: ServiceMetadata { build_info, network, zebra_build, zebra_subversion },
            status: StatusType::Syncing,
        }
    }

    /// Hands over a service once the validator's state has become ready, or the error where the
    /// state has failed.
    pub fn finish_spawn(self, readiness: Result<(), String>) -> (service: Result<
        StateService,
        StateServiceError,
    >)
        ensures
            match readiness {
                Ok(_) => {
                    &&& service is Ok
                    &&& service->Ok_0.data == self.data
                    &&& service->Ok_0.status == StatusType::Ready
                },
                Err(reason) => {
                    &&& service is Err
                    &&& service->Err_0@ == ErrorView::Generic(reason@)
                },
            },
    {
        match readiness {
            Ok(_) => Ok(StateService { data: self.data, status: StatusType::Ready }),
            Err(reason) => Err(StateServiceError::Generic(reason)),
        }
    }

    /// Updates the status from the readiness of the validator's state. Returns the new status, or
    /// nothing where the state has yet to become ready.
    pub fn fetch_status_from_validator(&mut self, readiness: Readiness) -> (status: Option<
        StatusType,
    >)
        ensures
            final(self).data == old(self).data,
            final(self).status == (match readiness {
                Readiness::Ready => StatusType::Ready,
                Readiness::Pending => StatusType::Busy,
                Readiness::Failed(_) => StatusType::CriticalError,
            }),
            status == (if readiness is Pending {
                None
            } else {
                Some(final(self).status)
            }),
    {
        match readiness {
            Readiness::Ready => {
                self.status = StatusType::Ready;
                Some(StatusType::Ready)
            },
            Readiness::Failed(_) => {
                self.status = StatusType::CriticalError;
                Some(StatusType::CriticalError)
            },
            Readiness::Pending => {
                self.status = StatusType::Busy;
                None
            },
        }
    }

    /// Returns the status.
    pub fn status(&self) -> (status: StatusType)
        ensures
            status == self.status,
    {
        self.status
    }

    /// Returns software information about the validator.
    pub fn get_info(&self) -> (info: Result<GetInfo, StateServiceError>)
        ensures
            info is Ok,
            info->Ok_0.build@ == self.data.zebra_build@,
            info->Ok_0.subversion@ == self.data.zebra_subversion@,
    {
        Ok(
            GetInfo {
                build: self.data.zebra_build.clone(),
                subversion: self.data.zebra_subversion.clone(),
            },
        )
    }

    /// Starts to gather the state of the blockchain.
    pub fn get_blockchain_info(&self) -> (step: ChainInfoStep)
        ensures
            step@ == ChainInfoStepView::Call(
                RequestView::TipPoolValues,
                ChainInfoQuery::PoolValues,
            ),
    {
        start_chain_info()
    }

    /// Goes on gathering the state of the blockchain.
    pub fn resume_blockchain_info(&self, query: ChainInfoQuery, reply: Reply) -> (step:
        ChainInfoStep)
        ensures
            step@ == chain_info_next(query, reply),
    {
        resume_chain_info(query, reply)
    }

    /// Returns the state of the blockchain at a tip, for the time `now`.
    pub fn finish_blockchain_info(&self, tip: &ChainTip, now: &Timestamp) -> (info:
        GetBlockChainInfo)
        requires
            tip.height < MAX_HEIGHT,
            can_extrapolate(tip.time, tip.height, *now),
        ensures
            info@ == chain_info_view(self.data.network, *tip, *now),
            in_height_order(info@.upgrades),
    {
        chain_info_at(&self.data.network, tip, now)
    }

    /// Starts to look for a block by its hash or height.
    ///
    /// `verbosity` is 0 for the serialized block, 1, the default, for the block spelled out, 2 for
    /// the block spelled out with the data of its transactions, and 3 for callers that read the
    /// transaction ids alone, who get what 1 gives. If the block is not in the state, the error
    /// code is -8 if a height was passed, or -5 if a hash was passed.
    pub fn get_block(&self, hash_or_height: String, verbosity: Option<u8>) -> (step: BlockStep)
        ensures
            step@ == block_query_start(hash_or_height@, verbosity),
    {
        start_block(hash_or_height.as_str(), verbosity)
    }

    /// Goes on looking for a block.
    pub fn resume_block(&self, query: BlockQuery, event: BlockEvent) -> (step: BlockStep)
        requires
            block_event_fits(query@, event),
        ensures
            step@ == block_query_next(activation_list(self.data.network), query@, event),
    {
        resume_block(&self.data.network, query, event)
    }

    /// Starts to look for the header of a block by the block's hash or height.
    ///
    /// `verbose` is false, the default, for the serialized header, and true for the header spelled
    /// out. If the block is not in the state, the error code is -8 if a height was passed, or -5 if
    /// a hash was passed.
    pub fn get_block_header(&self, hash_or_height: String, verbose: Option<bool>) -> (step:
        BlockHeaderStep)
        ensures
            step@ == header_query_start(hash_or_height@, verbose),
    {
        start_block_header(hash_or_height.as_str(), verbose)
    }

    /// Goes on looking for the header of a block.
    pub fn resume_block_header(&self, query: BlockHeaderQuery, reply: Reply) -> (step:
        BlockHeaderStep)
        requires
            header_reply_fits(query@, reply),
        ensures
            step@ == header_query_next(activation_list(self.data.network), query@, reply),
    {
        resume_block_header(&self.data.network, query, reply)
    }
}

} // verus!
