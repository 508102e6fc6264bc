mod generate_docker;
mod generate_specs;

pub use generate_docker::GenerateDocker;
pub use generate_specs::set_para_id;
