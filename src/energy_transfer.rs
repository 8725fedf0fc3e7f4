//! Delivery tracking: telemetry recorded while energy flows for an order, and
//! the certification of a completed delivery back to the order book.
use vstd::prelude::*;

use crate::encoding::{bytes_field, copy_bytes, push_bytes, push_u32, push_u64, u32_field, u64_field};
use crate::energy_trade;
use crate::table::Table;
use crate::{Balance, Hash256};

verus! {

#[derive(Clone, Debug, PartialEq, Eq)]
pub struct TransferData {
    pub order_id: Hash256,
    pub start_time: u64,
    pub end_time: Option<u64>,
    pub energy_delivered: Balance,
    pub grid_metrics: Vec<u8>,
    pub status: TransferStatus,
}

#[derive(Clone, Copy, Debug, PartialEq, Eq, Structural)]
pub enum TransferStatus {
    Pending,
    InProgress,
    Completed,
    Failed,
}

/// One telemetry reading. The engine checks neither plausibility nor order.
#[derive(Clone, Debug, PartialEq, Eq)]
pub struct IoTMeasurement {
    pub device_id: Vec<u8>,
    pub timestamp: u64,
    pub energy_amount: u64,
    pub grid_frequency: u32,
    pub voltage: u32,
}

#[derive(Clone, Debug, PartialEq, Eq)]
pub enum Event {
    TransferStarted { order_id: Hash256, start_time: u64 },
    MeasurementRecorded { order_id: Hash256, device_id: Vec<u8>, energy_amount: u64 },
    TransferCompleted { order_id: Hash256, total_energy: Balance },
    TransferFailed { order_id: Hash256, reason: Vec<u8> },
}

#[derive(Clone, Copy, Debug, PartialEq, Eq, Structural)]
pub enum Error {
    TransferNotFound,
    InvalidTransferStatus,
    InvalidMeasurement,
    TransferAlreadyStarted,
    DeviceNotAuthorized,
    /// The order book refused to certify the delivery.
    Trade(energy_trade::Error),
}

/// The canonical encoding of a measurement, handed to the order book as
/// delivery evidence.
pub open spec fn measurement_encoding(m: IoTMeasurement) -> Seq<u8> {
    bytes_field(m.device_id@) + (u64_field(m.timestamp) + (u64_field(m.energy_amount) + (u32_field(
        m.grid_frequency,
    ) + u32_field(m.voltage))))
}

/// The canonical encoding of a measurement.
pub fn encode_measurement(m: &IoTMeasurement) -> (r: Vec<u8>)
    ensures
        r@ == measurement_encoding(*m),
{
    let mut out: Vec<u8> = Vec::new();
    push_bytes(&mut out, m.device_id.as_slice());
    push_u64(&mut out, m.timestamp);
    push_u64(&mut out, m.energy_amount);
    push_u32(&mut out, m.grid_frequency);
    push_u32(&mut out, m.voltage);
    assert(out@ =~= measurement_encoding(*m));
    out
}

/// The moves of a transfer: `InProgress -> Completed`, and from any status to
/// `Failed`; staying put is always allowed.
pub open spec fn transfer_step_allowed(from: TransferStatus, to: TransferStatus) -> bool {
    ||| from == to
    ||| from == TransferStatus::InProgress && to == TransferStatus::Completed
    ||| to == TransferStatus::Failed
}

/// Every transfer present before and after kept its status or took an allowed step.
pub open spec fn transfer_steps_allowed(before: Map<Seq<u8>, TransferData>, after: Map<Seq<u8>, TransferData>) -> bool {
    forall|k: Seq<u8>|
        #[trigger] before.contains_key(k) && after.contains_key(k) ==> transfer_step_allowed(
            before[k].status,
            after[k].status,
        )
}

/// The transfer record once its delivery completed.
pub open spec fn finished(t: TransferData, end_time: u64, m: IoTMeasurement) -> TransferData {
    TransferData {
        end_time: Some(end_time),
        energy_delivered: m.energy_amount as Balance,
        status: TransferStatus::Completed,
        ..t
    }
}

/// Transfers and their telemetry, both by order identifier.
pub struct Pallet {
    transfers: Table<Hash256, TransferData>,
    measurements: Table<Hash256, Vec<IoTMeasurement>>,
}

impl Pallet {
    pub closed spec fn wf(&self) -> bool {
        self.transfers.wf() && self.measurements.wf()
    }

    /// Transfers by order identifier.
    pub closed spec fn transfer_map(&self) -> Map<Seq<u8>, TransferData> {
        self.transfers@
    }

    /// The telemetry recorded for an order, oldest first.
    pub closed spec fn measurements_of(&self, order_id: Seq<u8>) -> Seq<IoTMeasurement> {
        if self.measurements@.contains_key(order_id) {
            self.measurements@[order_id]@
        } else {
            Seq::empty()
        }
    }

    pub fn new() -> (r: Self)
        ensures
            r.wf(),
            r.transfer_map() == Map::<Seq<u8>, TransferData>::empty(),
            forall|k: Seq<u8>| r.measurements_of(k) == Seq::<IoTMeasurement>::empty(),
    {
        Pallet { transfers: Table::new(), measurements: Table::new() }
    }

    /// The transfer of an order, if one was started.
    pub fn transfers(&self, order_id: &Hash256) -> (r: Option<&TransferData>)
        requires
            self.wf(),
        ensures
            match r {
                Some(t) => self.transfer_map().contains_key(order_id@) && *t == self.transfer_map()[order_id@],
                None => !self.transfer_map().contains_key(order_id@),
            },
    {
        self.transfers.get(order_id)
    }

    /// The number of measurements recorded for an order.
    pub fn measurement_count(&self, order_id: &Hash256) -> (r: usize)
        requires
            self.wf(),
        ensures
            r == self.measurements_of(order_id@).len(),
    {
        match self.measurements.get(order_id) {
            Some(ms) => ms.len(),
            None => 0,
        }
    }

    /// A measurement recorded for an order.
    pub fn measurement_at(&self, order_id: &Hash256, i: usize) -> (r: &IoTMeasurement)
        requires
            self.wf(),
            i < self.measurements_of(order_id@).len(),
        ensures
            *r == self.measurements_of(order_id@)[i as int],
    {
        let p = self.measurements.position(order_id);
        let k = p.unwrap();
        &self.measurements.entry(k).1[i]
    }

    fn append_measurement(&mut self, order_id: &Hash256, m: IoTMeasurement)
        requires
            old(self).wf(),
        ensures
            final(self).wf(),
            final(self).transfer_map() == old(self).transfer_map(),
            final(self).measurements_of(order_id@) == old(self).measurements_of(order_id@).push(m),
            forall|k: Seq<u8>|
                k != order_id@ ==> #[trigger] final(self).measurements_of(k) == old(self).measurements_of(k),
    {
        let ghost before = self.measurements@;
        match self.measurements.position(order_id) {
            Some(i) => {
                let ms = self.measurements.value_mut(i);
                ms.push(m);
            },
            None => {
                let mut ms: Vec<IoTMeasurement> = Vec::new();
                ms.push(m);
                self.measurements.insert(*order_id, ms);
                assert(self.measurements@[order_id@]@ =~= Seq::<IoTMeasurement>::empty().push(m));
            },
        }
        proof {
            let post = self.measurements@;
            assert forall|k: Seq<u8>| k != order_id@ implies #[trigger] self.measurements_of(k)
                == old(self).measurements_of(k) by {
                assert(post.contains_key(k) == before.contains_key(k));
            }
        }
    }

    /// Opens the one transfer an order may have, in progress from `start_time`.
    pub fn start_transfer(&mut self, order_id: &Hash256, start_time: u64) -> (r: Result<Event, Error>)
        requires
            old(self).wf(),
        ensures
            final(self).wf(),
            old(self).transfer_map().contains_key(order_id@) ==> r == Err::<Event, Error>(
                Error::TransferAlreadyStarted,
            ) && *final(self) == *old(self),
            !old(self).transfer_map().contains_key(order_id@) ==> {
                &&& r == Ok::<Event, Error>(Event::TransferStarted { order_id: *order_id, start_time })
                &&& final(self).transfer_map().dom() == old(self).transfer_map().dom().insert(order_id@)
                &&& forall|k: Seq<u8>|
                    k != order_id@ && #[trigger] old(self).transfer_map().contains_key(k)
                        ==> final(self).transfer_map()[k] == old(self).transfer_map()[k]
                &&& final(self).transfer_map()[order_id@].order_id == *order_id
                &&& final(self).transfer_map()[order_id@].start_time == start_time
                &&& final(self).transfer_map()[order_id@].end_time is None
                &&& final(self).transfer_map()[order_id@].energy_delivered == 0
                &&& final(self).transfer_map()[order_id@].grid_metrics@ == Seq::<u8>::empty()
                &&& final(self).transfer_map()[order_id@].status == TransferStatus::InProgress
                &&& forall|k: Seq<u8>| #[trigger] final(self).measurements_of(k) == old(self).measurements_of(k)
            },
    {
        if self.transfers.contains(order_id) {
            return Err(Error::TransferAlreadyStarted);
        }
        let t = TransferData {
            order_id: *order_id,
            start_time,
            end_time: None,
            energy_delivered: 0,
            grid_metrics: Vec::new(),
            status: TransferStatus::InProgress,
        };
        self.transfers.insert(*order_id, t);
        Ok(Event::TransferStarted { order_id: *order_id, start_time })
    }

    /// Appends a reading to the telemetry of a started transfer.
    pub fn record_measurement(&mut self, order_id: &Hash256, measurement: IoTMeasurement) -> (r: Result<Event, Error>)
        requires
            old(self).wf(),
        ensures
            final(self).wf(),
            !old(self).transfer_map().contains_key(order_id@) ==> r == Err::<Event, Error>(
                Error::TransferNotFound,
            ) && *final(self) == *old(self),
            old(self).transfer_map().contains_key(order_id@) ==> {
                &&& r matches Ok(Event::MeasurementRecorded { order_id: id, device_id, energy_amount })
                    && id == *order_id && device_id@ == measurement.device_id@ && energy_amount
                    == measurement.energy_amount
                &&& final(self).transfer_map() == old(self).transfer_map()
                &&& final(self).measurements_of(order_id@) == old(self).measurements_of(order_id@).push(
                    measurement,
                )
                &&& forall|k: Seq<u8>|
                    k != order_id@ ==> #[trigger] final(self).measurements_of(k) == old(self).measurements_of(k)
            },
    {
        if !self.transfers.contains(order_id) {
            return Err(Error::TransferNotFound);
        }
        let device_id = copy_bytes(measurement.device_id.as_slice());
        let energy_amount = measurement.energy_amount;
        self.append_measurement(order_id, measurement);
        Ok(Event::MeasurementRecorded { order_id: *order_id, device_id, energy_amount })
    }

    /// Why `complete_transfer(order_id, ..)` is refused here, if it is.
    pub open spec fn completion_error(&self, trade: &energy_trade::Pallet, order_id: Seq<u8>) -> Option<Error> {
        if !self.transfer_map().contains_key(order_id) {
            Some(Error::TransferNotFound)
        } else if self.transfer_map()[order_id].status != TransferStatus::InProgress {
            Some(Error::InvalidTransferStatus)
        } else {
            match trade.verify_error(order_id) {
                Some(e) => Some(Error::Trade(e)),
                None => None,
            }
        }
    }

    /// Closes an in-progress transfer with its final reading, and in the same
    /// step has the order book verify the delivery with that reading's
    /// encoding as evidence. Both changes happen, or neither. The events come
    /// in the order they are raised: the order book's, then this one's.
    pub fn complete_transfer(
        &mut self,
        trade: &mut energy_trade::Pallet,
        order_id: &Hash256,
        end_time: u64,
        final_measurement: IoTMeasurement,
    ) -> (r: Result<(energy_trade::Event, Event), Error>)
        requires
            old(self).wf(),
            old(trade).wf(),
        ensures
            final(self).wf(),
            final(trade).wf(),
            transfer_steps_allowed(old(self).transfer_map(), final(self).transfer_map()),
            energy_trade::order_steps_allowed(old(trade).orders(), final(trade).orders()),
            match old(self).completion_error(&*old(trade), order_id@) {
                Some(e) => r == Err::<(energy_trade::Event, Event), Error>(e) && *final(self) == *old(
                    self,
                ) && *final(trade) == *old(trade),
                None => {
                    &&& r matches Ok((energy_trade::Event::TransferVerified { order_id: id, verification_hash: h }, ev))
                        && id == *order_id && ev == (Event::TransferCompleted {
                            order_id: *order_id,
                            total_energy: final_measurement.energy_amount as Balance,
                        }) && h@ == energy_trade::verification_hash_of(
                            measurement_encoding(final_measurement),
                        ) && final(trade).orders() == old(trade).orders().insert(
                            order_id@,
                            energy_trade::verified(old(trade).orders()[order_id@], h),
                        )
                    &&& forall|a: crate::AccountId| #[trigger] final(trade).user_orders_of(a) == old(trade).user_orders_of(a)
                    &&& final(self).transfer_map() == old(self).transfer_map().insert(
                        order_id@,
                        finished(old(self).transfer_map()[order_id@], end_time, final_measurement),
                    )
                    &&& final(self).measurements_of(order_id@) == old(self).measurements_of(
                        order_id@,
                    ).push(final_measurement)
                    &&& forall|k: Seq<u8>|
                        k != order_id@ ==> #[trigger] final(self).measurements_of(k) == old(self).measurements_of(k)
                },
            },
    {
        let i = match self.transfers.position(order_id) {
            Some(i) => i,
            None => {
                return Err(Error::TransferNotFound);
            },
        };
        if self.transfers.entry(i).1.status != TransferStatus::InProgress {
            return Err(Error::InvalidTransferStatus);
        }
        let evidence = encode_measurement(&final_measurement);
        let verified = match trade.verify_transfer(order_id, &evidence) {
            Ok(ev) => ev,
            Err(e) => {
                return Err(Error::Trade(e));
            },
        };
        let delivered = final_measurement.energy_amount as Balance;
        let t = self.transfers.value_mut(i);
        t.end_time = Some(end_time);
        t.energy_delivered = delivered;
        t.status = TransferStatus::Completed;
        self.append_measurement(order_id, final_measurement);
        Ok((verified, Event::TransferCompleted { order_id: *order_id, total_energy: delivered }))
    }

    /// Marks a transfer failed, whatever its status. The order is left as it is.
    pub fn report_transfer_failure(&mut self, order_id: &Hash256, reason: Vec<u8>) -> (r: Result<Event, Error>)
        requires
            old(self).wf(),
        ensures
            final(self).wf(),
            transfer_steps_allowed(old(self).transfer_map(), final(self).transfer_map()),
            !old(self).transfer_map().contains_key(order_id@) ==> r == Err::<Event, Error>(
                Error::TransferNotFound,
            ) && *final(self) == *old(self),
            old(self).transfer_map().contains_key(order_id@) ==> {
                &&& r == Ok::<Event, Error>(Event::TransferFailed { order_id: *order_id, reason })
                &&& final(self).transfer_map() == old(self).transfer_map().insert(
                    order_id@,
                    TransferData { status: TransferStatus::Failed, ..old(self).transfer_map()[order_id@] },
                )
                &&& forall|k: Seq<u8>| #[trigger] final(self).measurements_of(k) == old(self).measurements_of(k)
            },
    {
        let i = match self.transfers.position(order_id) {
            Some(i) => i,
            None => {
                return Err(Error::TransferNotFound);
            },
        };
        let t = self.transfers.value_mut(i);
        t.status = TransferStatus::Failed;
        Ok(Event::TransferFailed { order_id: *order_id, reason })
    }
}

} // verus!
