//! The bundled template set, fixed at build time.
//!
//! Every template ships inside the binary, so generation never reads from
//! the invocation directory.  Each body exists once as executable data and
//! once as its specification-level image; the contract on each getter keeps
//! the two identical.  The generated service reads its configuration from
//! the environment; no credentials are baked into any template.

use vstd::prelude::*;
use crate::paths::str_eq;

verus! {

/// The placeholder token that the project name replaces.
pub open spec fn spec_token() -> Seq<char> {
    "{{project-name}}"@
}

/// The token as a string slice.
pub fn placeholder_token() -> (r: &'static str)
    ensures
        r@ == spec_token(),
{
    "{{project-name}}"
}

pub closed spec fn body_cargo_toml() -> Seq<char> {
    "[package]
name = \"{{project-name}}\"
version = \"0.1.0\"
edition = \"2021\"

[dependencies]
axum = \"0.7\"
tokio = { version = \"1\", features = [\"full\"] }
serde = { version = \"1\", features = [\"derive\"] }
serde_json = \"1\"
tower = \"0.5\"
tower-http = { version = \"0.6\", features = [\"cors\"] }
env_logger = \"0.11\"
lambda_http = \"0.13\"
http-body-util = \"0.1\"
tracing = \"0.1\"
tracing-subscriber = \"0.3\"
uuid = { version = \"1\", features = [\"v4\"] }

[lib]
name = \"{{project-name}}\"
path = \"src/lib.rs\"

[[bin]]
name = \"{{project-name}}\"
path = \"src/main.rs\"

[[bin]]
name = \"{{project-name}}_lambda\"
path = \"src/services/lambda.rs\"
"@
}

fn template_cargo_toml() -> (r: &'static str)
    ensures
        r@ == body_cargo_toml(),
{
    "[package]
name = \"{{project-name}}\"
version = \"0.1.0\"
edition = \"2021\"

[dependencies]
axum = \"0.7\"
tokio = { version = \"1\", features = [\"full\"] }
serde = { version = \"1\", features = [\"derive\"] }
serde_json = \"1\"
tower = \"0.5\"
tower-http = { version = \"0.6\", features = [\"cors\"] }
env_logger = \"0.11\"
lambda_http = \"0.13\"
http-body-util = \"0.1\"
tracing = \"0.1\"
tracing-subscriber = \"0.3\"
uuid = { version = \"1\", features = [\"v4\"] }

[lib]
name = \"{{project-name}}\"
path = \"src/lib.rs\"

[[bin]]
name = \"{{project-name}}\"
path = \"src/main.rs\"

[[bin]]
name = \"{{project-name}}_lambda\"
path = \"src/services/lambda.rs\"
"
}

pub closed spec fn body_makefile() -> Seq<char> {
    "build:
\tcargo build --release

run:
\tcargo run --bin {{project-name}}

lambda:
\tcargo build --release --bin {{project-name}}_lambda
"@
}

fn template_makefile() -> (r: &'static str)
    ensures
        r@ == body_makefile(),
{
    "build:
\tcargo build --release

run:
\tcargo run --bin {{project-name}}

lambda:
\tcargo build --release --bin {{project-name}}_lambda
"
}

pub closed spec fn body_main_rs() -> Seq<char> {
    "use std::sync::Arc;
use tower_http::cors::CorsLayer;
use {{project-name}}::common::validation::RapidApiConfig;
use {{project-name}}::routes::create_router;

#[tokio::main]
async fn main() {
    env_logger::init();
    let config = Arc::new(
        RapidApiConfig::from_env().expect(\"failed to load RapidAPI configuration\"),
    );
    let app = create_router(config).layer(CorsLayer::permissive());
    let listener = tokio::net::TcpListener::bind(\"127.0.0.1:3010\")
        .await
        .expect(\"failed to bind\");
    println!(\"Listening on 127.0.0.1:3010\");
    axum::serve(listener, app)
        .with_graceful_shutdown(async {
            tokio::signal::ctrl_c().await.ok();
            println!(\"Shutting down server...\");
        })
        .await
        .expect(\"server error\");
}
"@
}

fn template_main_rs() -> (r: &'static str)
    ensures
        r@ == body_main_rs(),
{
    "use std::sync::Arc;
use tower_http::cors::CorsLayer;
use {{project-name}}::common::validation::RapidApiConfig;
use {{project-name}}::routes::create_router;

#[tokio::main]
async fn main() {
    env_logger::init();
    let config = Arc::new(
        RapidApiConfig::from_env().expect(\"failed to load RapidAPI configuration\"),
    );
    let app = create_router(config).layer(CorsLayer::permissive());
    let listener = tokio::net::TcpListener::bind(\"127.0.0.1:3010\")
        .await
        .expect(\"failed to bind\");
    println!(\"Listening on 127.0.0.1:3010\");
    axum::serve(listener, app)
        .with_graceful_shutdown(async {
            tokio::signal::ctrl_c().await.ok();
            println!(\"Shutting down server...\");
        })
        .await
        .expect(\"server error\");
}
"
}

pub closed spec fn body_lib_rs() -> Seq<char> {
    "pub mod common;
pub mod process;
pub mod routes;
"@
}

fn template_lib_rs() -> (r: &'static str)
    ensures
        r@ == body_lib_rs(),
{
    "pub mod common;
pub mod process;
pub mod routes;
"
}

pub closed spec fn body_common_mod_rs() -> Seq<char> {
    "pub mod types;
pub mod validation;
"@
}

fn template_common_mod_rs() -> (r: &'static str)
    ensures
        r@ == body_common_mod_rs(),
{
    "pub mod types;
pub mod validation;
"
}

pub closed spec fn body_types_rs() -> Seq<char> {
    "use serde::{Deserialize, Serialize};

/// Generic response type for API endpoints
#[derive(Debug, Serialize, Deserialize)]
pub struct ResponseType<T> {
    pub success: bool,
    pub data: Option<T>,
    pub error: Option<String>,
}

impl<T> ResponseType<T> {
    /// Create a successful response
    pub fn success(data: T) -> Self {
        Self {
            success: true,
            data: Some(data),
            error: None,
        }
    }

    /// Create an error response
    pub fn error(message: String) -> Self {
        Self {
            success: false,
            data: None,
            error: Some(message),
        }
    }
}
"@
}

fn template_types_rs() -> (r: &'static str)
    ensures
        r@ == body_types_rs(),
{
    "use serde::{Deserialize, Serialize};

/// Generic response type for API endpoints
#[derive(Debug, Serialize, Deserialize)]
pub struct ResponseType<T> {
    pub success: bool,
    pub data: Option<T>,
    pub error: Option<String>,
}

impl<T> ResponseType<T> {
    /// Create a successful response
    pub fn success(data: T) -> Self {
        Self {
            success: true,
            data: Some(data),
            error: None,
        }
    }

    /// Create an error response
    pub fn error(message: String) -> Self {
        Self {
            success: false,
            data: None,
            error: Some(message),
        }
    }
}
"
}

pub closed spec fn body_validation_rs() -> Seq<char> {
    "use axum::http::HeaderMap;
use std::env;

#[derive(Debug)]
pub enum ValidationError {
    RapidApi(String),
    EnvVar(String),
}

pub struct RapidApiConfig {
    pub api_key: String,
    pub proxy_secret: String,
    pub host: String,
}

impl RapidApiConfig {
    pub fn new(api_key: &str, proxy_secret: &str, host: &str) -> Self {
        Self {
            api_key: api_key.to_string(),
            proxy_secret: proxy_secret.to_string(),
            host: host.to_string(),
        }
    }

    pub fn from_env() -> Result<Self, ValidationError> {
        Ok(Self {
            api_key: env::var(\"RAPIDAPI_KEY\")
                .map_err(|_| ValidationError::EnvVar(\"RAPIDAPI_KEY not set\".to_string()))?,
            proxy_secret: env::var(\"RAPIDAPI_PROXY_SECRET\")
                .map_err(|_| ValidationError::EnvVar(\"RAPIDAPI_PROXY_SECRET not set\".to_string()))?,
            host: env::var(\"RAPIDAPI_HOST\")
                .map_err(|_| ValidationError::EnvVar(\"RAPIDAPI_HOST not set\".to_string()))?,
        })
    }
}

pub async fn validate_rapidapi_headers(
    headers: &HeaderMap,
    config: &RapidApiConfig,
) -> Result<(), ValidationError> {
    let rapidapi_key = headers
        .get(\"x-rapidapi-key\")
        .and_then(|v| v.to_str().ok())
        .ok_or_else(|| ValidationError::RapidApi(\"Missing RapidAPI key\".to_string()))?;
    if rapidapi_key != config.api_key {
        return Err(ValidationError::RapidApi(\"Invalid RapidAPI key\".to_string()));
    }

    let rapidapi_proxy_secret = headers
        .get(\"x-rapidapi-proxy-secret\")
        .and_then(|v| v.to_str().ok())
        .ok_or_else(|| ValidationError::RapidApi(\"Missing RapidAPI proxy secret\".to_string()))?;
    if rapidapi_proxy_secret != config.proxy_secret {
        return Err(ValidationError::RapidApi(\"Invalid RapidAPI proxy secret\".to_string()));
    }

    let rapidapi_host = headers
        .get(\"x-rapidapi-host\")
        .and_then(|v| v.to_str().ok())
        .ok_or_else(|| ValidationError::RapidApi(\"Missing RapidAPI host\".to_string()))?;
    if rapidapi_host != config.host {
        return Err(ValidationError::RapidApi(\"Invalid RapidAPI host\".to_string()));
    }

    Ok(())
}
"@
}

fn template_validation_rs() -> (r: &'static str)
    ensures
        r@ == body_validation_rs(),
{
    "use axum::http::HeaderMap;
use std::env;

#[derive(Debug)]
pub enum ValidationError {
    RapidApi(String),
    EnvVar(String),
}

pub struct RapidApiConfig {
    pub api_key: String,
    pub proxy_secret: String,
    pub host: String,
}

impl RapidApiConfig {
    pub fn new(api_key: &str, proxy_secret: &str, host: &str) -> Self {
        Self {
            api_key: api_key.to_string(),
            proxy_secret: proxy_secret.to_string(),
            host: host.to_string(),
        }
    }

    pub fn from_env() -> Result<Self, ValidationError> {
        Ok(Self {
            api_key: env::var(\"RAPIDAPI_KEY\")
                .map_err(|_| ValidationError::EnvVar(\"RAPIDAPI_KEY not set\".to_string()))?,
            proxy_secret: env::var(\"RAPIDAPI_PROXY_SECRET\")
                .map_err(|_| ValidationError::EnvVar(\"RAPIDAPI_PROXY_SECRET not set\".to_string()))?,
            host: env::var(\"RAPIDAPI_HOST\")
                .map_err(|_| ValidationError::EnvVar(\"RAPIDAPI_HOST not set\".to_string()))?,
        })
    }
}

pub async fn validate_rapidapi_headers(
    headers: &HeaderMap,
    config: &RapidApiConfig,
) -> Result<(), ValidationError> {
    let rapidapi_key = headers
        .get(\"x-rapidapi-key\")
        .and_then(|v| v.to_str().ok())
        .ok_or_else(|| ValidationError::RapidApi(\"Missing RapidAPI key\".to_string()))?;
    if rapidapi_key != config.api_key {
        return Err(ValidationError::RapidApi(\"Invalid RapidAPI key\".to_string()));
    }

    let rapidapi_proxy_secret = headers
        .get(\"x-rapidapi-proxy-secret\")
        .and_then(|v| v.to_str().ok())
        .ok_or_else(|| ValidationError::RapidApi(\"Missing RapidAPI proxy secret\".to_string()))?;
    if rapidapi_proxy_secret != config.proxy_secret {
        return Err(ValidationError::RapidApi(\"Invalid RapidAPI proxy secret\".to_string()));
    }

    let rapidapi_host = headers
        .get(\"x-rapidapi-host\")
        .and_then(|v| v.to_str().ok())
        .ok_or_else(|| ValidationError::RapidApi(\"Missing RapidAPI host\".to_string()))?;
    if rapidapi_host != config.host {
        return Err(ValidationError::RapidApi(\"Invalid RapidAPI host\".to_string()));
    }

    Ok(())
}
"
}

pub closed spec fn body_routes_mod_rs() -> Seq<char> {
    "use axum::{
    routing::get,
    Router,
    http::{Request, StatusCode},
    response::Response,
    middleware::Next,
    extract::State,
};
use std::sync::Arc;

use crate::common::validation::{RapidApiConfig, validate_rapidapi_headers};

pub fn create_router(rapidapi_config: Arc<RapidApiConfig>) -> Router {
    Router::new()
        .route(\"/api/v1/hello\", get(hello_handler))
        .with_state(rapidapi_config.clone())
        .layer(axum::middleware::from_fn_with_state(
            rapidapi_config,
            validate_rapidapi_middleware,
        ))
}

async fn validate_rapidapi_middleware(
    State(rapidapi_config): State<Arc<RapidApiConfig>>,
    request: Request<axum::body::Body>,
    next: Next,
) -> Result<Response, (StatusCode, String)> {
    validate_rapidapi_headers(request.headers(), &rapidapi_config)
        .await
        .map_err(|e| {
            (
                StatusCode::UNAUTHORIZED,
                format!(\"RapidAPI validation failed: {:?}\", e),
            )
        })?;

    Ok(next.run(request).await)
}

async fn hello_handler() -> String {
    \"Hello, RapidAPI!\".to_string()
}
"@
}

fn template_routes_mod_rs() -> (r: &'static str)
    ensures
        r@ == body_routes_mod_rs(),
{
    "use axum::{
    routing::get,
    Router,
    http::{Request, StatusCode},
    response::Response,
    middleware::Next,
    extract::State,
};
use std::sync::Arc;

use crate::common::validation::{RapidApiConfig, validate_rapidapi_headers};

pub fn create_router(rapidapi_config: Arc<RapidApiConfig>) -> Router {
    Router::new()
        .route(\"/api/v1/hello\", get(hello_handler))
        .with_state(rapidapi_config.clone())
        .layer(axum::middleware::from_fn_with_state(
            rapidapi_config,
            validate_rapidapi_middleware,
        ))
}

async fn validate_rapidapi_middleware(
    State(rapidapi_config): State<Arc<RapidApiConfig>>,
    request: Request<axum::body::Body>,
    next: Next,
) -> Result<Response, (StatusCode, String)> {
    validate_rapidapi_headers(request.headers(), &rapidapi_config)
        .await
        .map_err(|e| {
            (
                StatusCode::UNAUTHORIZED,
                format!(\"RapidAPI validation failed: {:?}\", e),
            )
        })?;

    Ok(next.run(request).await)
}

async fn hello_handler() -> String {
    \"Hello, RapidAPI!\".to_string()
}
"
}

pub closed spec fn body_process_mod_rs() -> Seq<char> {
    "pub mod processing;
"@
}

fn template_process_mod_rs() -> (r: &'static str)
    ensures
        r@ == body_process_mod_rs(),
{
    "pub mod processing;
"
}

pub closed spec fn body_processing_rs() -> Seq<char> {
    "use axum::{
    extract::Json,
    http::StatusCode,
    response::IntoResponse,
};

use axum::body::{Body, Bytes};
use axum::extract::{FromRequest, Request};
use axum::response::Response;
use serde::de::DeserializeOwned;
use serde::Serialize;

#[derive(Serialize)]
pub struct ErrorResponse {
    pub error: String,
}

#[derive(Debug)]
pub struct CustomJson<T>(pub T);

#[axum::async_trait]
impl<T, S> FromRequest<S, Body> for CustomJson<T>
where
    T: DeserializeOwned,
    S: Send + Sync,
{
    type Rejection = Response;

    async fn from_request(req: Request<Body>, state: &S) -> Result<Self, Self::Rejection> {
        let bytes = Bytes::from_request(req, state)
            .await
            .map_err(|e| {
                let error = ErrorResponse {
                    error: format!(\"Failed to read request body: {}\", e),
                };
                (StatusCode::OK, Json(error)).into_response()
            })?;

        let value: T = serde_json::from_slice(&bytes).map_err(|e| {
            let error = ErrorResponse {
                error: format!(\"Failed to deserialize request body: {}\", e),
            };
            (StatusCode::OK, Json(error)).into_response()
        })?;

        Ok(CustomJson(value))
    }
}
"@
}

fn template_processing_rs() -> (r: &'static str)
    ensures
        r@ == body_processing_rs(),
{
    "use axum::{
    extract::Json,
    http::StatusCode,
    response::IntoResponse,
};

use axum::body::{Body, Bytes};
use axum::extract::{FromRequest, Request};
use axum::response::Response;
use serde::de::DeserializeOwned;
use serde::Serialize;

#[derive(Serialize)]
pub struct ErrorResponse {
    pub error: String,
}

#[derive(Debug)]
pub struct CustomJson<T>(pub T);

#[axum::async_trait]
impl<T, S> FromRequest<S, Body> for CustomJson<T>
where
    T: DeserializeOwned,
    S: Send + Sync,
{
    type Rejection = Response;

    async fn from_request(req: Request<Body>, state: &S) -> Result<Self, Self::Rejection> {
        let bytes = Bytes::from_request(req, state)
            .await
            .map_err(|e| {
                let error = ErrorResponse {
                    error: format!(\"Failed to read request body: {}\", e),
                };
                (StatusCode::OK, Json(error)).into_response()
            })?;

        let value: T = serde_json::from_slice(&bytes).map_err(|e| {
            let error = ErrorResponse {
                error: format!(\"Failed to deserialize request body: {}\", e),
            };
            (StatusCode::OK, Json(error)).into_response()
        })?;

        Ok(CustomJson(value))
    }
}
"
}

pub closed spec fn body_lambda_rs() -> Seq<char> {
    "use axum::body::Body;
use http_body_util::BodyExt;
use lambda_http::{run, service_fn, Error, Request, Response};
use std::sync::Arc;
use tower::ServiceExt;
use tracing::info;
use uuid::Uuid;

use {{project-name}}::common::validation::RapidApiConfig;
use {{project-name}}::routes::create_router;

async fn handler(lambda_request: Request) -> Result<Response<lambda_http::Body>, Error> {
    let server_id = Uuid::new_v4().to_string();
    info!(\"Lambda instance {server_id} received a request\");

    let config = Arc::new(
        RapidApiConfig::from_env().map_err(|e| Error::from(format!(\"{e:?}\")))?,
    );
    let app = create_router(config);

    let (parts, body) = lambda_request.into_parts();
    let body = match body {
        lambda_http::Body::Empty => Body::empty(),
        lambda_http::Body::Text(text) => Body::from(text),
        lambda_http::Body::Binary(data) => Body::from(data),
    };
    let axum_request = axum::http::Request::from_parts(parts, body);

    let axum_response = app.oneshot(axum_request).await?;
    let (parts, body) = axum_response.into_parts();
    let bytes = body.collect().await?.to_bytes();
    let lambda_body = if bytes.is_empty() {
        lambda_http::Body::Empty
    } else {
        match String::from_utf8(bytes.to_vec()) {
            Ok(text) => lambda_http::Body::Text(text),
            Err(_) => lambda_http::Body::Binary(bytes.to_vec()),
        }
    };
    Ok(Response::from_parts(parts, lambda_body))
}

#[tokio::main]
async fn main() -> Result<(), Error> {
    tracing_subscriber::fmt().with_target(false).without_time().init();
    run(service_fn(handler)).await
}
"@
}

fn template_lambda_rs() -> (r: &'static str)
    ensures
        r@ == body_lambda_rs(),
{
    "use axum::body::Body;
use http_body_util::BodyExt;
use lambda_http::{run, service_fn, Error, Request, Response};
use std::sync::Arc;
use tower::ServiceExt;
use tracing::info;
use uuid::Uuid;

use {{project-name}}::common::validation::RapidApiConfig;
use {{project-name}}::routes::create_router;

async fn handler(lambda_request: Request) -> Result<Response<lambda_http::Body>, Error> {
    let server_id = Uuid::new_v4().to_string();
    info!(\"Lambda instance {server_id} received a request\");

    let config = Arc::new(
        RapidApiConfig::from_env().map_err(|e| Error::from(format!(\"{e:?}\")))?,
    );
    let app = create_router(config);

    let (parts, body) = lambda_request.into_parts();
    let body = match body {
        lambda_http::Body::Empty => Body::empty(),
        lambda_http::Body::Text(text) => Body::from(text),
        lambda_http::Body::Binary(data) => Body::from(data),
    };
    let axum_request = axum::http::Request::from_parts(parts, body);

    let axum_response = app.oneshot(axum_request).await?;
    let (parts, body) = axum_response.into_parts();
    let bytes = body.collect().await?.to_bytes();
    let lambda_body = if bytes.is_empty() {
        lambda_http::Body::Empty
    } else {
        match String::from_utf8(bytes.to_vec()) {
            Ok(text) => lambda_http::Body::Text(text),
            Err(_) => lambda_http::Body::Binary(bytes.to_vec()),
        }
    };
    Ok(Response::from_parts(parts, lambda_body))
}

#[tokio::main]
async fn main() -> Result<(), Error> {
    tracing_subscriber::fmt().with_target(false).without_time().init();
    run(service_fn(handler)).await
}
"
}

/// The template body bundled under a relative path, if any.
pub open spec fn spec_template_body(p: Seq<char>) -> Option<Seq<char>> {
    if p == "Cargo.toml"@ {
        Some(body_cargo_toml())
    } else if p == "Makefile"@ {
        Some(body_makefile())
    } else if p == "src/main.rs"@ {
        Some(body_main_rs())
    } else if p == "src/lib.rs"@ {
        Some(body_lib_rs())
    } else if p == "src/common/mod.rs"@ {
        Some(body_common_mod_rs())
    } else if p == "src/common/types.rs"@ {
        Some(body_types_rs())
    } else if p == "src/common/validation.rs"@ {
        Some(body_validation_rs())
    } else if p == "src/routes/mod.rs"@ {
        Some(body_routes_mod_rs())
    } else if p == "src/process/mod.rs"@ {
        Some(body_process_mod_rs())
    } else if p == "src/process/processing.rs"@ {
        Some(body_processing_rs())
    } else if p == "src/services/lambda.rs"@ {
        Some(body_lambda_rs())
    } else {
        None
    }
}

/// Look a template up in the bundle by its relative path.
pub fn template_content(p: &str) -> (r: Option<&'static str>)
    ensures
        match r {
            Some(s) => spec_template_body(p@) == Some(s@),
            None => spec_template_body(p@) is None,
        },
{
    if str_eq(p, "Cargo.toml") {
        Some(template_cargo_toml())
    } else if str_eq(p, "Makefile") {
        Some(template_makefile())
    } else if str_eq(p, "src/main.rs") {
        Some(template_main_rs())
    } else if str_eq(p, "src/lib.rs") {
        Some(template_lib_rs())
    } else if str_eq(p, "src/common/mod.rs") {
        Some(template_common_mod_rs())
    } else if str_eq(p, "src/common/types.rs") {
        Some(template_types_rs())
    } else if str_eq(p, "src/common/validation.rs") {
        Some(template_validation_rs())
    } else if str_eq(p, "src/routes/mod.rs") {
        Some(template_routes_mod_rs())
    } else if str_eq(p, "src/process/mod.rs") {
        Some(template_process_mod_rs())
    } else if str_eq(p, "src/process/processing.rs") {
        Some(template_processing_rs())
    } else if str_eq(p, "src/services/lambda.rs") {
        Some(template_lambda_rs())
    } else {
        None
    }
}

} // verus!
