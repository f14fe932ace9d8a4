//! Configuration carriers for observers and plots, and the plot dimension
//! rules.

use std::path::PathBuf;

use trellis::{
    check_interior_dimensions, check_line_dimensions, FileWriter, PlotConfig, PlotterError,
    Target, Tracer, Verbosity, WriteToFileSerializer,
};

#[test]
fn file_writer_stores_its_configuration() {
    let writer = FileWriter::new(
        PathBuf::from("out"),
        "calculation_time".to_string(),
        WriteToFileSerializer::JSON,
        Target::Measure,
    );
    assert_eq!(writer.dir, PathBuf::from("out"));
    assert_eq!(writer.identifier, "calculation_time");
    assert_eq!(writer.serializer, WriteToFileSerializer::JSON);
    assert_eq!(writer.target, Target::Measure);
    assert!(writer.writeable_identifier.is_none());

    let writer = writer.with_writeable_identifier("7".to_string());
    assert_eq!(writer.writeable_identifier.as_deref(), Some("7"));
    assert_eq!(writer.identifier, "calculation_time");
}

#[test]
fn tracer_stores_its_verbosity() {
    let tracer = Tracer::new(Verbosity::Debug);
    assert_eq!(tracer.level, Verbosity::Debug);
}

#[test]
fn plot_config_holds_its_fields() {
    let config = PlotConfig {
        x_limits: 0.0..100.0,
        y_limits: None,
        x_label: "Iteration".to_string(),
        y_label: "Measure".to_string(),
        title: "Optimisation Progress".to_string(),
    };
    assert_eq!(config.x_limits.end, 100.0);
    assert!(config.y_limits.is_none());
    assert_eq!(config.title, "Optimisation Progress");
}

#[test]
fn line_dimensions_must_match_the_grid() {
    assert!(check_line_dimensions(5, 5).is_ok());
    assert_eq!(check_line_dimensions(5, 6), Err(PlotterError::DimensionMismatch));
    assert_eq!(check_line_dimensions(0, 1), Err(PlotterError::DimensionMismatch));
    assert!(check_line_dimensions(0, 0).is_ok());
}

#[test]
fn interior_dimensions_skip_the_boundary_points() {
    assert!(check_interior_dimensions(3, 5).is_ok());
    assert!(check_interior_dimensions(0, 2).is_ok());
    assert_eq!(check_interior_dimensions(5, 5), Err(PlotterError::DimensionMismatch));
    assert_eq!(check_interior_dimensions(0, 1), Err(PlotterError::DimensionMismatch));
    assert_eq!(check_interior_dimensions(0, 0), Err(PlotterError::DimensionMismatch));
}
