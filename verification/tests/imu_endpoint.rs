use app_builder::imu_endpoint::{
    imu_endpoint_resources, resource_suffix, spi_imu_endpoint, ImuEndpointResourceRole::Owner,
    ImuEndpointResourceRole::Sample, ImuEndpointResourceVisibility::Exposed,
    ImuEndpointResourceVisibility::Private,
};

#[test]
fn definition_contains_the_bounded_golden_task_graph() {
    let endpoint = spi_imu_endpoint();
    assert_eq!(endpoint.tasks.data_ready.id, "imu_data_ready");
    assert_eq!(endpoint.tasks.owner_service.id, "spi_imu_owner_service");
    assert_eq!(endpoint.tasks.rx_dma_irq.id, "spi_imu_rx_dma_irq");
    assert_eq!(endpoint.tasks.timeout.id, "spi_imu_timeout");
    assert_eq!(endpoint.tasks.parser.id, "spi_imu_parser");
}

#[test]
fn decoded_sample_is_exposed_while_transport_owner_is_private() {
    let resources = imu_endpoint_resources();
    let sample = resources
        .iter()
        .find(|resource| resource.role == Sample)
        .unwrap();
    let owner = resources
        .iter()
        .find(|resource| resource.role == Owner)
        .unwrap();

    assert_eq!(sample.visibility, Exposed);
    assert_eq!(owner.visibility, Private);
}

#[test]
fn resource_suffixes_name_generated_fields() {
    assert_eq!(resource_suffix(Sample), "sample");
    assert_eq!(resource_suffix(Owner), "owner");
}
