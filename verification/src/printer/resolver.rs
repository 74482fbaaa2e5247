use super::descriptor::{
    endpoints_of_interfaces, endpoints_of_settings, ConfigDescriptor, Direction,
    EndpointDescriptor,
};
use crate::error::Error;
use vstd::prelude::*;

verus! {

/// The endpoints that a connection writes to and reads from.
#[derive(Clone, Copy, Debug, PartialEq, Eq, Structural)]
pub struct ResolvedEndpoints {
    /// Address of the bulk endpoint that takes the writes
    pub write_address: u8,
    /// Address of the bulk endpoint that the reads come from
    pub read_address: u8,
}

/// The address of the last bulk endpoint of the given direction among
/// `endpoints`, if there is one.
pub open spec fn last_bulk(endpoints: Seq<EndpointDescriptor>, direction: Direction) -> Option<u8>
    decreases endpoints.len(),
{
    if endpoints.len() == 0 {
        None
    } else if endpoints.last().is_bulk(direction) {
        Some(endpoints.last().address)
    } else {
        last_bulk(endpoints.drop_last(), direction)
    }
}

/// The address used for a direction: the override where one is given, else the
/// last bulk endpoint of that direction.
pub open spec fn resolved_address(
    endpoints: Seq<EndpointDescriptor>,
    direction: Direction,
    chosen: Option<u8>,
) -> Option<u8> {
    match chosen {
        Some(address) => Some(address),
        None => last_bulk(endpoints, direction),
    }
}

/// What resolution gives for the endpoints of a configuration and the two
/// overrides: both addresses, or `NoBulkEndpoint` where either is missing.
pub open spec fn resolve_spec(
    endpoints: Seq<EndpointDescriptor>,
    override_write: Option<u8>,
    override_read: Option<u8>,
) -> Result<ResolvedEndpoints, Error> {
    match (
        resolved_address(endpoints, Direction::Out, override_write),
        resolved_address(endpoints, Direction::In, override_read),
    ) {
        (Some(write_address), Some(read_address)) => Ok(
            ResolvedEndpoints { write_address, read_address },
        ),
        _ => Err(Error::NoBulkEndpoint),
    }
}

/// Walks through every interface, every alternate setting and every endpoint of
/// the configuration, in reported order, and keeps the address of each bulk
/// endpoint of the given direction that it meets: a later one replaces an
/// earlier one, so the last one met is returned.
pub fn detect_endpoint(config: &ConfigDescriptor, direction: Direction) -> (detected: Option<u8>)
    ensures
        detected == last_bulk(config.endpoints(), direction),
{
    let mut detected: Option<u8> = None;
    let ghost mut seen: Seq<EndpointDescriptor> = Seq::empty();
    let mut i: usize = 0;
    while i < config.interfaces.len()
        invariant
            i <= config.interfaces.len(),
            seen == endpoints_of_interfaces(config.interfaces@.take(i as int)),
            detected == last_bulk(seen, direction),
        decreases config.interfaces.len() - i,
    {
        let interface = &config.interfaces[i];
        let ghost before_interface = seen;
        let mut j: usize = 0;
        while j < interface.descriptors.len()
            invariant
                j <= interface.descriptors.len(),
                seen == before_interface + endpoints_of_settings(
                    interface.descriptors@.take(j as int),
                ),
                detected == last_bulk(seen, direction),
            decreases interface.descriptors.len() - j,
        {
            let setting = &interface.descriptors[j];
            let ghost before_setting = seen;
            let mut k: usize = 0;
            while k < setting.endpoints.len()
                invariant
                    k <= setting.endpoints.len(),
                    seen == before_setting + setting.endpoints@.take(k as int),
                    detected == last_bulk(seen, direction),
                decreases setting.endpoints.len() - k,
            {
                let endpoint = &setting.endpoints[k];
                proof {
                    let next = setting.endpoints@.take(k + 1);
                    assert((before_setting + next).drop_last() =~= seen);
                    seen = before_setting + next;
                }
                if endpoint.carries_bulk(direction) {
                    detected = Some(endpoint.address);
                }
                k += 1;
            }
            proof {
                assert(interface.descriptors@.take(j + 1).drop_last()
                    =~= interface.descriptors@.take(j as int));
            }
            j += 1;
        }
        proof {
            assert(interface.descriptors@.take(j as int) =~= interface.descriptors@);
            assert(config.interfaces@.take(i + 1).drop_last() =~= config.interfaces@.take(
                i as int,
            ));
        }
        i += 1;
    }
    proof {
        assert(config.interfaces@.take(i as int) =~= config.interfaces@);
    }
    detected
}

/// Determines the bulk endpoints of a connection. An override is used as it is,
/// without a look at the configuration; a direction without one gets the last
/// bulk endpoint of that direction. Fails with `NoBulkEndpoint` where a direction
/// has neither.
pub fn resolve(
    config: &ConfigDescriptor,
    override_write: Option<u8>,
    override_read: Option<u8>,
) -> (resolved: Result<ResolvedEndpoints, Error>)
    ensures
        resolved == resolve_spec(config.endpoints(), override_write, override_read),
{
    let write_address = match override_write {
        Some(address) => address,
        None => match detect_endpoint(config, Direction::Out) {
            Some(address) => address,
            None => return Err(Error::NoBulkEndpoint),
        },
    };
    let read_address = match override_read {
        Some(address) => address,
        None => match detect_endpoint(config, Direction::In) {
            Some(address) => address,
            None => return Err(Error::NoBulkEndpoint),
        },
    };
    Ok(ResolvedEndpoints { write_address, read_address })
}

/// Whether the endpoint at `index` is a bulk endpoint of the direction and no
/// endpoint after it is one.
pub open spec fn is_last_bulk_at(
    endpoints: Seq<EndpointDescriptor>,
    direction: Direction,
    index: int,
) -> bool {
    &&& 0 <= index < endpoints.len()
    &&& endpoints[index].is_bulk(direction)
    &&& forall|j: int| index < j < endpoints.len() ==> !(#[trigger] endpoints[j]).is_bulk(direction)
}

/// `last_bulk` by position: it is `None` exactly where no endpoint is a bulk
/// endpoint of the direction, and `Some(a)` exactly where `a` is the address of
/// the bulk endpoint of the direction after which no other follows.
pub proof fn lemma_last_bulk_position(endpoints: Seq<EndpointDescriptor>, direction: Direction)
    ensures
        last_bulk(endpoints, direction) is None <==> forall|i: int|
            0 <= i < endpoints.len() ==> !(#[trigger] endpoints[i]).is_bulk(direction),
        forall|address: u8|
            last_bulk(endpoints, direction) == Some(address) <==> exists|i: int|
                is_last_bulk_at(endpoints, direction, i) && endpoints[i].address == address,
    decreases endpoints.len(),
{
    if endpoints.len() > 0 {
        let front = endpoints.drop_last();
        let top = endpoints.len() - 1;
        lemma_last_bulk_position(front, direction);
        assert forall|i: int| 0 <= i < front.len() implies front[i] == endpoints[i] by {}
        if endpoints.last().is_bulk(direction) {
            assert(is_last_bulk_at(endpoints, direction, top));
        } else {
            assert forall|i: int|
                is_last_bulk_at(front, direction, i) <==> is_last_bulk_at(
                    endpoints,
                    direction,
                    i,
                ) by {
                if is_last_bulk_at(front, direction, i) {
                    assert forall|j: int| i < j < endpoints.len() implies !(
                    #[trigger] endpoints[j]).is_bulk(direction) by {}
                }
                if is_last_bulk_at(endpoints, direction, i) {
                    assert forall|j: int| i < j < front.len() implies !(#[trigger] front[j]).is_bulk(
                        direction,
                    ) by {}
                }
            }
        }
    }
}

/// Where a configuration holds a bulk endpoint of each direction, resolution
/// without overrides succeeds, and each address is that of the last bulk
/// endpoint of its direction in reported order.
pub proof fn law_resolution_takes_last_bulk(config: ConfigDescriptor)
    requires
        exists|i: int|
            0 <= i < config.endpoints().len() && (#[trigger] config.endpoints()[i]).is_bulk(
                Direction::Out,
            ),
        exists|i: int|
            0 <= i < config.endpoints().len() && (#[trigger] config.endpoints()[i]).is_bulk(
                Direction::In,
            ),
    ensures
        resolve_spec(config.endpoints(), None, None) is Ok,
        exists|i: int|
            is_last_bulk_at(config.endpoints(), Direction::Out, i) && config.endpoints()[i].address
                == resolve_spec(config.endpoints(), None, None)->Ok_0.write_address,
        exists|i: int|
            is_last_bulk_at(config.endpoints(), Direction::In, i) && config.endpoints()[i].address
                == resolve_spec(config.endpoints(), None, None)->Ok_0.read_address,
{
    lemma_last_bulk_position(config.endpoints(), Direction::Out);
    lemma_last_bulk_position(config.endpoints(), Direction::In);
}

/// Where a configuration holds no bulk endpoint of a direction and no override
/// is given for that direction, resolution fails with `NoBulkEndpoint`, whatever
/// holds of the other direction.
pub proof fn law_missing_endpoint_fails(
    config: ConfigDescriptor,
    direction: Direction,
    override_write: Option<u8>,
    override_read: Option<u8>,
)
    requires
        forall|i: int|
            0 <= i < config.endpoints().len() ==> !(#[trigger] config.endpoints()[i]).is_bulk(
                direction,
            ),
        direction == Direction::Out ==> override_write is None,
        direction == Direction::In ==> override_read is None,
    ensures
        resolve_spec(config.endpoints(), override_write, override_read) == Err::<
            ResolvedEndpoints,
            Error,
        >(Error::NoBulkEndpoint),
{
    lemma_last_bulk_position(config.endpoints(), direction);
}

/// An override is returned as it is, whatever the configuration holds: the
/// address of an overridden direction is the same on every two configurations.
pub proof fn law_override_is_verbatim(
    config: ConfigDescriptor,
    other: ConfigDescriptor,
    direction: Direction,
    address: u8,
)
    ensures
        resolved_address(config.endpoints(), direction, Some(address)) == Some(address),
        resolved_address(other.endpoints(), direction, Some(address)) == Some(address),
{
}

/// With both directions overridden, resolution succeeds on every configuration,
/// also on one without endpoints, and returns the two overrides. With one
/// direction overridden, the result rests on the bulk endpoints of the other
/// direction alone.
pub proof fn law_overrides_need_no_endpoints(
    config: ConfigDescriptor,
    write_address: u8,
    read_address: u8,
)
    ensures
        resolve_spec(config.endpoints(), Some(write_address), Some(read_address)) == Ok::<
            ResolvedEndpoints,
            Error,
        >(ResolvedEndpoints { write_address, read_address }),
        resolve_spec(config.endpoints(), Some(write_address), None) == match last_bulk(
            config.endpoints(),
            Direction::In,
        ) {
            Some(read) => Ok(ResolvedEndpoints { write_address, read_address: read }),
            None => Err(Error::NoBulkEndpoint),
        },
        resolve_spec(config.endpoints(), None, Some(read_address)) == match last_bulk(
            config.endpoints(),
            Direction::Out,
        ) {
            Some(write) => Ok(ResolvedEndpoints { write_address: write, read_address }),
            None => Err(Error::NoBulkEndpoint),
        },
{
}

} // verus!
