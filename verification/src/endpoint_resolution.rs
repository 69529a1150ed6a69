//! Resolution of endpoint components against the selected board: each
//! serial or SPI IMU endpoint finds its hardware and names its resources
//! after its instance.

use vstd::prelude::*;

use crate::board::{board_serial, board_spi, imu_from, BoardDeclaration, SpiHardwareDeclaration};
use crate::task::copy_all;
use crate::imu_endpoint::{
    resource_suffix as imu_resource_suffix, spec_resource_suffix as spec_imu_resource_suffix,
    ImuEndpointDeclaration, ImuEndpointResourceRole,
};
use crate::lower::{imu_role_name, imu_role_str};
use crate::platform_config::{PlatformConfig, SpiService};
use crate::resolve::{ResolvedImuEndpoint, ResolvedImuEndpointResource};
use crate::serial_endpoint::{
    serial_resource_suffix, serial_resource_suffix_str, serial_role_name, serial_role_str,
    ResolvedEndpointResource, ResolvedSerialEndpoint, SerialEndpointDeclaration,
};
use crate::text::{concat3, concat5, decimal, push_decimal, push_decimal_usize};

verus! {

// ---------------------------------------------------------------------------
// Serial endpoints
// ---------------------------------------------------------------------------

/// Index of the first resource of the serial endpoint definition, from `j`
/// on, whose role a resource before it already has.
pub open spec fn serial_repeated_role_from(d: SerialEndpointDeclaration, j: int) -> Option<int>
    decreases d.definition.resources@.len() - j,
{
    let rs = d.definition.resources@;
    if j < 0 || j >= rs.len() {
        None
    } else if exists|k: int| 0 <= k < j && #[trigger] rs[k].role == rs[j].role {
        Some(j)
    } else {
        serial_repeated_role_from(d, j + 1)
    }
}

/// Rule a serial endpoint breaks during resolution: its board serial port
/// must exist, its storage must be the 4 receive buffers of depth 4 and the
/// transmit depth 16 the backend supports, and no role may repeat.
pub open spec fn serial_endpoint_resolution_error(board: BoardDeclaration, d: SerialEndpointDeclaration) -> Option<
    Seq<char>,
> {
    if board_serial(board, d.hardware_id@) is None {
        Some(
            "serial endpoint `"@ + d.id@ + "` hardware `"@ + d.hardware_id@
                + "` disappeared after validation"@,
        )
    } else if d.rx_buffer_count != 4 || d.rx_queue_depth != 4 {
        Some(
            "serial endpoint `"@ + d.id@ + "` requests RX storage "@ + decimal(
                d.rx_buffer_count as nat,
            ) + "/"@ + decimal(d.rx_queue_depth as nat)
                + ", but the current STM32F4 backend supports 4 buffers and depth 4"@,
        )
    } else if d.tx_queue_depth != 16 {
        Some(
            "serial endpoint `"@ + d.id@ + "` requests TX depth "@ + decimal(
                d.tx_queue_depth as nat,
            ) + ", but the current STM32F4 backend supports depth 16"@,
        )
    } else if let Some(j) = serial_repeated_role_from(d, 0) {
        Some(
            "serial endpoint definition `"@ + d.definition.id@ + "` repeats resource role `"@
                + serial_role_name(d.definition.resources@[j].role) + "`"@,
        )
    } else {
        None
    }
}

/// `e` is the serial endpoint `d` resolved on `board`: its serial port and
/// one resource per definition resource, named `<id>_<suffix>`.
pub open spec fn resolves_serial_endpoint(
    board: BoardDeclaration,
    d: SerialEndpointDeclaration,
    e: ResolvedSerialEndpoint,
) -> bool {
    &&& e.declaration == d
    &&& board_serial(board, d.hardware_id@) == Some(e.hardware)
    &&& e.resources@.len() == d.definition.resources@.len()
    &&& forall|k: int|
        0 <= k < e.resources@.len() ==> {
            let r = #[trigger] e.resources@[k];
            let q = d.definition.resources@[k];
            &&& r.role == q.role
            &&& r.ownership == q.ownership
            &&& r.visibility == q.visibility
            &&& r.id@ == d.id@ + "_"@ + serial_resource_suffix(q.role)
        }
}

/// Resolves a serial endpoint to its board serial port and its resources,
/// each named after the instance and its role.
pub fn resolve_serial_endpoint(board: &BoardDeclaration, declaration: SerialEndpointDeclaration) -> (r:
    Result<ResolvedSerialEndpoint, String>)
    ensures
        match serial_endpoint_resolution_error(*board, declaration) {
            Some(m) => r matches Err(e) && e@ == m,
            None => r matches Ok(e) && resolves_serial_endpoint(*board, declaration, e),
        },
{
    let hardware = match board.serial(declaration.hardware_id) {
        Some(h) => h,
        None => {
            return Err(
                concat5(
                    "serial endpoint `",
                    declaration.id,
                    "` hardware `",
                    declaration.hardware_id,
                    "` disappeared after validation",
                ),
            );
        },
    };
    if declaration.rx_buffer_count != 4 || declaration.rx_queue_depth != 4 {
        let mut m = concat3("serial endpoint `", declaration.id, "` requests RX storage ");
        push_decimal_usize(&mut m, declaration.rx_buffer_count);
        m.append("/");
        push_decimal_usize(&mut m, declaration.rx_queue_depth);
        m.append(", but the current STM32F4 backend supports 4 buffers and depth 4");
        return Err(m);
    }
    if declaration.tx_queue_depth != 16 {
        let mut m = concat3("serial endpoint `", declaration.id, "` requests TX depth ");
        push_decimal_usize(&mut m, declaration.tx_queue_depth);
        m.append(", but the current STM32F4 backend supports depth 16");
        return Err(m);
    }
    let mut resources: Vec<ResolvedEndpointResource> = Vec::new();
    let mut j: usize = 0;
    while j < declaration.definition.resources.len()
        invariant
            j <= declaration.definition.resources@.len(),
            resources@.len() == j,
            forall|k: int|
                0 <= k < j ==> {
                    let r = #[trigger] resources@[k];
                    let q = declaration.definition.resources@[k];
                    &&& r.role == q.role
                    &&& r.ownership == q.ownership
                    &&& r.visibility == q.visibility
                    &&& r.id@ == declaration.id@ + "_"@ + serial_resource_suffix(q.role)
                },
            serial_repeated_role_from(declaration, 0) == serial_repeated_role_from(
                declaration,
                j as int,
            ),
            board_serial(*board, declaration.hardware_id@) == Some(hardware),
            declaration.rx_buffer_count == 4 && declaration.rx_queue_depth == 4
                && declaration.tx_queue_depth == 16,
        decreases declaration.definition.resources@.len() - j,
    {
        let q = declaration.definition.resources[j];
        let mut k: usize = 0;
        while k < j
            invariant
                j < declaration.definition.resources@.len(),
                k <= j,
                q == declaration.definition.resources@[j as int],
                serial_repeated_role_from(declaration, 0) == serial_repeated_role_from(
                    declaration,
                    j as int,
                ),
                board_serial(*board, declaration.hardware_id@) == Some(hardware),
                declaration.rx_buffer_count == 4 && declaration.rx_queue_depth == 4
                    && declaration.tx_queue_depth == 16,
                forall|p: int| 0 <= p < k ==> #[trigger] declaration.definition.resources@[p].role != q.role,
            decreases j - k,
        {
            if declaration.definition.resources[k].role == q.role {
                proof {
                    assert(declaration.definition.resources@[k as int].role == q.role);
                    assert(serial_repeated_role_from(declaration, j as int) == Some(j as int));
                }
                return Err(
                    concat5(
                        "serial endpoint definition `",
                        declaration.definition.id,
                        "` repeats resource role `",
                        serial_role_str(q.role),
                        "`",
                    ),
                );
            }
            k = k + 1;
        }
        let id = concat3(declaration.id, "_", serial_resource_suffix_str(q.role));
        let ghost before = resources@;
        resources.push(
            ResolvedEndpointResource {
                id,
                role: q.role,
                ownership: q.ownership,
                visibility: q.visibility,
            },
        );
        proof {
            reveal_strlit("_");
            assert forall|p: int| 0 <= p < j implies resources@[p] == before[p] by {}
        }
        j = j + 1;
    }
    Ok(ResolvedSerialEndpoint { declaration, hardware, resources })
}

// ---------------------------------------------------------------------------
// SPI IMU endpoints
// ---------------------------------------------------------------------------

/// Index of the first resource of the IMU endpoint definition, from `j` on,
/// whose role a resource before it already has.
pub open spec fn imu_repeated_role_from(d: ImuEndpointDeclaration, j: int) -> Option<int>
    decreases d.definition.resources@.len() - j,
{
    let rs = d.definition.resources@;
    if j < 0 || j >= rs.len() {
        None
    } else if exists|k: int| 0 <= k < j && #[trigger] rs[k].role == rs[j].role {
        Some(j)
    } else {
        imu_repeated_role_from(d, j + 1)
    }
}

/// The endpoint `d` has the boot-time SPI assignment: it is `spi1` and the
/// platform assigns SPI1.
pub open spec fn imu_assigned(platform: PlatformConfig, d: ImuEndpointDeclaration) -> bool {
    platform.spi[0] is Some && d.id@ == "spi1"@
}

/// Installation number the boot-time SPI assignment selects.
pub open spec fn assigned_installation(platform: PlatformConfig) -> crate::platform_config::ImuInstallationId {
    match platform.spi[0]->Some_0.service {
        SpiService::Imu(n) => n,
    }
}

/// Rule an SPI IMU endpoint breaks during resolution: its SPI bus must
/// exist, it must have the boot-time assignment, the selected installation
/// must sit on its bus, and no role may repeat.
pub open spec fn imu_endpoint_resolution_error(
    board: BoardDeclaration,
    platform: PlatformConfig,
    d: ImuEndpointDeclaration,
) -> Option<Seq<char>> {
    if board_spi(board, d.hardware_id@) is None {
        Some(
            "SPI endpoint `"@ + d.id@ + "` hardware `"@ + d.hardware_id@
                + "` disappeared after validation"@,
        )
    } else if !imu_assigned(platform, d) {
        Some("SPI endpoint `"@ + d.id@ + "` has no boot-time service assignment"@)
    } else if imu_from(
        board_spi(board, d.hardware_id@)->Some_0.imu@,
        assigned_installation(platform),
        0,
    ) is None {
        Some(
            "SPI endpoint `"@ + d.id@ + "` IMU installation "@ + decimal(
                assigned_installation(platform).id as nat,
            ) + " disappeared after validation"@,
        )
    } else {
        imu_role_error(d)
    }
}

/// Rule the IMU endpoint definition's resources break: no role may repeat.
pub open spec fn imu_role_error(d: ImuEndpointDeclaration) -> Option<Seq<char>> {
    if let Some(j) = imu_repeated_role_from(d, 0) {
        Some(
            "IMU endpoint definition `"@ + d.definition.id@ + "` repeats resource role `"@
                + imu_role_name(d.definition.resources@[j].role) + "`"@,
        )
    } else {
        None
    }
}

/// The two SPI bus declarations agree in every field.
pub open spec fn same_spi(a: SpiHardwareDeclaration, b: SpiHardwareDeclaration) -> bool {
    a.id == b.id && a.bus == b.bus && a.imu@ == b.imu@
}

fn copy_spi(s: &SpiHardwareDeclaration) -> (r: SpiHardwareDeclaration)
    ensures
        same_spi(r, *s),
{
    SpiHardwareDeclaration { id: s.id, bus: s.bus, imu: copy_all(&s.imu) }
}

/// Generated identifier of an IMU endpoint resource: the sample carries the
/// name the boot-time SPI service gives it, the others `<id>_<suffix>`.
pub open spec fn imu_resource_name(
    d: ImuEndpointDeclaration,
    role: ImuEndpointResourceRole,
    sample: Seq<char>,
) -> Seq<char> {
    if role == ImuEndpointResourceRole::Sample {
        sample
    } else {
        d.id@ + "_"@ + spec_imu_resource_suffix(role)
    }
}

/// `e` is the IMU endpoint `d` resolved on `board` under `platform`: its
/// bus, the selected installation, and one resource per definition resource.
pub open spec fn resolves_imu_endpoint(
    board: BoardDeclaration,
    platform: PlatformConfig,
    d: ImuEndpointDeclaration,
    sample: Seq<char>,
    e: ResolvedImuEndpoint,
) -> bool {
    &&& e.declaration == d
    &&& board_spi(board, d.hardware_id@) matches Some(s) && same_spi(e.spi, s)
    &&& imu_from(e.spi.imu@, assigned_installation(platform), 0) == Some(e.hardware)
    &&& e.resources@.len() == d.definition.resources@.len()
    &&& forall|k: int|
        0 <= k < e.resources@.len() ==> {
            let r = #[trigger] e.resources@[k];
            let q = d.definition.resources@[k];
            &&& r.role == q.role
            &&& r.ownership == q.ownership
            &&& r.visibility == q.visibility
            &&& r.id@ == imu_resource_name(d, q.role, sample)
        }
}

/// Resolves an SPI IMU endpoint to its bus, the installation the boot-time
/// assignment selects, and its resources. `sample_resource` is the name the
/// selected SPI service gives its sample.
pub fn resolve_imu_endpoint(
    board: &BoardDeclaration,
    platform: PlatformConfig,
    declaration: ImuEndpointDeclaration,
    sample_resource: &str,
) -> (r: Result<ResolvedImuEndpoint, String>)
    ensures
        match imu_endpoint_resolution_error(*board, platform, declaration) {
            Some(m) => r matches Err(e) && e@ == m,
            None => r matches Ok(e) && resolves_imu_endpoint(
                *board,
                platform,
                declaration,
                sample_resource@,
                e,
            ),
        },
{
    let spi = match board.spi(declaration.hardware_id) {
        Some(s) => copy_spi(s),
        None => {
            return Err(
                concat5(
                    "SPI endpoint `",
                    declaration.id,
                    "` hardware `",
                    declaration.hardware_id,
                    "` disappeared after validation",
                ),
            );
        },
    };
    let assignment = match platform.spi[0] {
        Some(a) => a,
        None => {
            return Err(concat3("SPI endpoint `", declaration.id, "` has no boot-time service assignment"));
        },
    };
    if !crate::text::str_eq(declaration.id, "spi1") {
        return Err(concat3("SPI endpoint `", declaration.id, "` has no boot-time service assignment"));
    }
    let installation = match assignment.service {
        SpiService::Imu(n) => n,
    };
    let hardware = match spi.imu(installation) {
        Some(h) => h,
        None => {
            let mut m = concat3("SPI endpoint `", declaration.id, "` IMU installation ");
            push_decimal(&mut m, installation.id as u32);
            m.append(" disappeared after validation");
            return Err(m);
        },
    };
    proof {
        assert(imu_assigned(platform, declaration));
    }
    let mut resources: Vec<ResolvedImuEndpointResource> = Vec::new();
    let mut j: usize = 0;
    while j < declaration.definition.resources.len()
        invariant
            j <= declaration.definition.resources@.len(),
            resources@.len() == j,
            forall|k: int|
                0 <= k < j ==> {
                    let r = #[trigger] resources@[k];
                    let q = declaration.definition.resources@[k];
                    &&& r.role == q.role
                    &&& r.ownership == q.ownership
                    &&& r.visibility == q.visibility
                    &&& r.id@ == imu_resource_name(declaration, q.role, sample_resource@)
                },
            imu_repeated_role_from(declaration, 0) == imu_repeated_role_from(declaration, j as int),
            imu_endpoint_resolution_error(*board, platform, declaration) == imu_role_error(declaration),
            board_spi(*board, declaration.hardware_id@) matches Some(s) && same_spi(spi, s),
            imu_from(spi.imu@, assigned_installation(platform), 0) == Some(hardware),
        decreases declaration.definition.resources@.len() - j,
    {
        let q = declaration.definition.resources[j];
        let mut k: usize = 0;
        while k < j
            invariant
                j < declaration.definition.resources@.len(),
                k <= j,
                q == declaration.definition.resources@[j as int],
                imu_repeated_role_from(declaration, 0) == imu_repeated_role_from(
                    declaration,
                    j as int,
                ),
                imu_endpoint_resolution_error(*board, platform, declaration) == imu_role_error(declaration),
                forall|p: int| 0 <= p < k ==> #[trigger] declaration.definition.resources@[p].role != q.role,
            decreases j - k,
        {
            if declaration.definition.resources[k].role == q.role {
                proof {
                    assert(declaration.definition.resources@[k as int].role == q.role);
                    assert(imu_repeated_role_from(declaration, j as int) == Some(j as int));
                }
                return Err(
                    concat5(
                        "IMU endpoint definition `",
                        declaration.definition.id,
                        "` repeats resource role `",
                        imu_role_str(q.role),
                        "`",
                    ),
                );
            }
            k = k + 1;
        }
        let id = match q.role {
            ImuEndpointResourceRole::Sample => String::from_str(sample_resource),
            _ => concat3(declaration.id, "_", imu_resource_suffix(q.role)),
        };
        proof {
            reveal_strlit("_");
        }
        let ghost before = resources@;
        resources.push(
            ResolvedImuEndpointResource {
                id,
                role: q.role,
                ownership: q.ownership,
                visibility: q.visibility,
            },
        );
        proof {
            assert forall|p: int| 0 <= p < j implies resources@[p] == before[p] by {}
        }
        j = j + 1;
    }
    Ok(ResolvedImuEndpoint { declaration, hardware, spi, resources })
}

} // verus!
