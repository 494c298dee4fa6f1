//! The forwarding protocol for one row-change notification: build the event,
//! decide whether the configuration row asks for a new connection, and after
//! the primary call decide on the follow-up call.
use vstd::prelude::*;
use crate::row::{RowImage, lookup_bool, lookup_text};
use crate::event::{
    EventRequest, EventResponse, PkColumn, event_kind, follow_up, is_follow_up, key_value, kind_of,
    primary_keys, qualified_name, qualified_table_name, INT_COLUMN_TYPE,
};
use crate::endpoint::{CacheEvent, MetaConfig, needs_reconnect, step};

verus! {

/// Name of the table whose master row configures the remote address.
pub const CONFIG_TABLE: &'static str = "rppd_config";

/// Time allowed to a call or a connection attempt, in milliseconds.
pub const TIMEOUT_MS: u64 = 100;

/// Why a notification cannot be forwarded at all; the row operation fails.
#[derive(PartialEq, Eq, Structural, Debug, Clone, Copy)]
pub enum TriggerError {
    /// The notification carries no row image.
    NotTrigger,
}

/// A row-change notification as the trigger mechanism delivers it.
pub struct Notification {
    pub fired_by_insert: bool,
    pub fired_by_update: bool,
    pub fired_by_delete: bool,
    pub table_schema: Option<String>,
    pub table_name: Option<String>,
    pub old: Option<RowImage>,
    pub new: Option<RowImage>,
}

/// A connection to establish before the primary call.
pub struct Reconnect {
    pub host: String,
    /// Why the present connection cannot be used.
    pub previous: String,
}

/// The primary event of a notification, and the connection it asks for.
pub struct Prepared {
    pub event: EventRequest,
    pub reconnect: Option<Reconnect>,
}

/// The row image of a change: the old row for a delete, else the new one.
pub open spec fn current_row_of(n: Notification) -> Option<RowImage> {
    if n.fired_by_delete {
        n.old
    } else {
        n.new
    }
}

pub open spec fn opt_view(s: Option<String>) -> Option<Seq<char>> {
    match s {
        Some(t) => Some(t@),
        None => None,
    }
}

/// Bare table name of a notification, empty when not supplied.
pub open spec fn table_of(n: Notification) -> Seq<char> {
    match n.table_name {
        Some(t) => t@,
        None => Seq::empty(),
    }
}

/// The address that a row of `table` configures: present only for a row of
/// the configuration table whose `master` flag reads true; an empty address
/// when its host is null. A flag or a host that cannot be read configures
/// nothing: forwarding never fails the row operation on that account.
pub open spec fn master_host_of(table: Seq<char>, row: RowImage) -> Option<Seq<char>> {
    if table != "rppd_config"@ {
        None
    } else {
        match lookup_bool(row, "master"@) {
            Ok(Some(true)) => match lookup_text(row, "host"@) {
                Err(_) => None,
                Ok(None) => Some(Seq::empty()),
                Ok(Some(h)) => Some(h),
            },
            _ => None,
        }
    }
}

/// `ev` is the primary event of notification `n` with row image `row`.
pub open spec fn is_primary_event(ev: EventRequest, n: Notification, row: RowImage) -> bool {
    &&& ev.table_name@ == qualified_name(opt_view(n.table_schema), table_of(n))
    &&& ev.event_type == kind_of(n.fired_by_insert, n.fired_by_update, n.fired_by_delete).spec_ordinal()
    &&& !ev.id_value
    &&& ev.optional_caller is None
    &&& ev.pks@.len() == 1
    &&& ev.pks@[0].column_name@ == "id"@
    &&& ev.pks@[0].column_type == INT_COLUMN_TYPE
    &&& ev.pks@[0].pk_value == key_value(row)
}

impl Notification {
    /// The row image of the change; an error when the mechanism supplied none.
    pub fn current_row(&self) -> (r: Result<&RowImage, TriggerError>)
        ensures
            match (r, current_row_of(*self)) {
                (Ok(row), Some(x)) => *row == x,
                (Err(e), None) => e == TriggerError::NotTrigger,
                _ => false,
            },
    {
        let row = if self.fired_by_delete {
            &self.old
        } else {
            &self.new
        };
        match row {
            Some(r) => Ok(r),
            None => Err(TriggerError::NotTrigger),
        }
    }
}

/// The address configured by a row of `table`, if it is a readable master
/// row of the configuration table.
pub fn master_host(table: &String, row: &RowImage) -> (r: Option<String>)
    ensures
        match (r, master_host_of(table@, *row)) {
            (Some(h), Some(g)) => h@ == g,
            (None, None) => true,
            _ => false,
        },
{
    if *table != String::from_str(CONFIG_TABLE) {
        return None;
    }
    match row.get_bool(&String::from_str("master")) {
        Ok(Some(true)) => match row.get_text(&String::from_str("host")) {
            Err(_) => None,
            Ok(None) => Some(String::new()),
            Ok(Some(h)) => Some(h),
        },
        _ => None,
    }
}

impl<C> MetaConfig<C> {
    /// First step for a notification: its primary event, and the connection
    /// to establish first when a master configuration row names an address
    /// that the cache is not connected to. Fails only when the notification
    /// carries no row image.
    pub fn prepare(&self, n: &Notification) -> (r: Result<Prepared, TriggerError>)
        ensures
            r is Err <==> current_row_of(*n) is None,
            match current_row_of(*n) {
                None => r == Err::<Prepared, TriggerError>(TriggerError::NotTrigger),
                Some(row) => match r {
                    Err(_) => false,
                    Ok(p) => {
                        let host = master_host_of(table_of(*n), row);
                        &&& is_primary_event(p.event, *n, row)
                        &&& match (p.reconnect, host) {
                            (None, None) => true,
                            (None, Some(h)) => needs_reconnect(self@, h) is None,
                            (Some(c), Some(h)) => c.host@ == h && needs_reconnect(self@, h)
                                == Some(c.previous@),
                            _ => false,
                        }
                    },
                },
            },
    {
        let row = match n.current_row() {
            Ok(row) => row,
            Err(e) => {
                return Err(e);
            },
        };
        let pks = primary_keys(row);
        let table = match &n.table_name {
            Some(t) => t.clone(),
            None => String::new(),
        };
        assert(table@ == table_of(*n));
        let reconnect = match master_host(&table, row) {
            None => None,
            Some(host) => match self.needs_re_connect(&host) {
                None => None,
                Some(previous) => Some(Reconnect { host, previous }),
            },
        };
        let kind = event_kind(n.fired_by_insert, n.fired_by_update, n.fired_by_delete);
        let event = EventRequest {
            table_name: qualified_table_name(&n.table_schema, &table),
            event_type: kind.ordinal(),
            id_value: false,
            pks,
            optional_caller: None,
        };
        Ok(Prepared { event, reconnect })
    }

    /// Last step for a notification, given the outcome of its primary call.
    /// A failed call marks the cache broken and calls for nothing more; the
    /// row operation goes on either way. A successful one leaves the cache as
    /// it is and calls for the follow-up event when the response requests
    /// columns. What the follow-up call returns is not looked at.
    pub fn on_primary_result(
        &mut self,
        primary: EventRequest,
        outcome: Result<EventResponse, String>,
        row: &RowImage,
    ) -> (r: Option<EventRequest>)
        ensures
            match outcome {
                Err(e) => {
                    &&& r is None
                    &&& final(self)@ == step(old(self)@, CacheEvent::CallFailed(e@))
                    &&& final(self)@.address == old(self)@.address
                },
                Ok(resp) => {
                    &&& final(self)@ == old(self)@
                    &&& (r is None <==> resp.repeat_with@.len() == 0)
                    &&& (r matches Some(f) ==> is_follow_up(f, primary, resp.repeat_with@, *row))
                },
            },
    {
        match outcome {
            Err(e) => {
                self.mark_broken(e);
                None
            },
            Ok(resp) => follow_up(primary, &resp, row),
        }
    }
}

} // verus!
