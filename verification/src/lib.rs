pub mod text;
pub mod decimal;
pub mod clock;
pub mod configuration;
pub mod domain;
pub mod jwt_middleware;
pub mod services;
pub mod routes;
pub mod startup;
