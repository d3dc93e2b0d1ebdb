use vstd::prelude::*;
use crate::render::{generated_source, parses, pretty_of, render, SynthesisError};

verus! {

/// The router of the authentication endpoints.
pub const AUTH_ROUTER: &'static str =
    "let auth_router = Router::new()\n    .route(\"/login\", post(login))\n    .route(\"/register\", post(register));\n";

/// Registration hashes the password and stores a new user; login checks the
/// password, replaces the user's session with a fresh random token that lives
/// one hour, and hands the token out in a secure, http-only cookie.
pub const AUTH_ROUTES_SRC: &'static str = "use axum::{extract::State, http::StatusCode, response::IntoResponse, Json};
use axum_extra::extract::cookie::{Cookie, PrivateCookieJar};
use bcrypt::{hash, verify};
use chrono::{Duration as ChronoDuration, Utc};
use serde::Deserialize;
use time::Duration as TimeDuration;
use crate::AppState;

#[derive(Deserialize, sqlx::FromRow)]
pub struct LoginDetails {
    pub username: String,
    pub password: String,
}

pub async fn register(
    State(state): State<AppState>,
    Json(user): Json<LoginDetails>,
) -> Result<impl IntoResponse, impl IntoResponse> {
    let hashed_password = match hash(user.password, 10u32) {
        Ok(h) => h,
        Err(e) => return Err((StatusCode::INTERNAL_SERVER_ERROR, format!(\"Error while registering: {e}\"))),
    };
    if let Err(e) = sqlx::query(\"INSERT INTO users (username, password) VALUES ($1, $2)\")
        .bind(user.username)
        .bind(hashed_password)
        .execute(&state.db)
        .await
    {
        return Err((StatusCode::INTERNAL_SERVER_ERROR, format!(\"Error while registering: {e}\")));
    }
    Ok(StatusCode::CREATED)
}

pub async fn login(
    State(state): State<AppState>,
    jar: PrivateCookieJar,
    Json(user): Json<LoginDetails>,
) -> Result<impl IntoResponse, impl IntoResponse> {
    let res = match sqlx::query_as::<_, LoginDetails>(\"SELECT username, password FROM users WHERE username = $1\")
        .bind(user.username.clone())
        .fetch_one(&state.db)
        .await
    {
        Ok(res) => res,
        Err(_) => return Err((StatusCode::BAD_REQUEST, \"Incorrect credentials\".to_string())),
    };
    match verify(user.password, &res.password) {
        Ok(true) => {}
        Ok(false) => return Err((StatusCode::BAD_REQUEST, \"Incorrect credentials\".to_string())),
        Err(e) => {
            return Err((StatusCode::INTERNAL_SERVER_ERROR, format!(\"Something went wrong trying to verify your password: {e}\")))
        }
    }
    let session_id = format!(\"{:032x}\", rand::random::<u128>());
    let expires_at = Utc::now() + ChronoDuration::seconds(3600);
    if let Err(e) = sqlx::query(
        \"INSERT INTO usersessions (user_id, session_id, expires_at) VALUES ((SELECT id FROM users WHERE username = $1), $2, $3) ON CONFLICT (user_id) DO UPDATE SET session_id = excluded.session_id, expires_at = excluded.expires_at\",
    )
        .bind(user.username)
        .bind(session_id.clone())
        .bind(expires_at)
        .execute(&state.db)
        .await
    {
        return Err((StatusCode::INTERNAL_SERVER_ERROR, format!(\"Something went wrong trying to give you a session: {e}\")));
    }
    let cookie = Cookie::build(\"session\", session_id)
        .domain(\".app.localhost\")
        .secure(true)
        .http_only(true)
        .max_age(TimeDuration::seconds(3600))
        .finish();
    Ok((jar.add(cookie), StatusCode::OK))
}
";

/// The guard reads the session cookie, looks up a session that has not
/// expired, and hands the user's identity to the handler; otherwise the
/// request is refused with 403.
pub const AUTH_MIDDLEWARE_SRC: &'static str = "use serde::{Deserialize, Serialize};
use crate::AppState;
use axum_extra::extract::cookie::PrivateCookieJar;
use axum::{http::{Request, StatusCode}, middleware::Next, response::IntoResponse, extract::State};

#[derive(Clone, Deserialize, Serialize, sqlx::FromRow)]
pub struct UserInfo {
    user_id: i32,
}

pub async fn check_authed_cookies<B>(
    State(state): State<AppState>,
    jar: PrivateCookieJar,
    mut req: Request<B>,
    next: Next<B>,
) -> Result<impl IntoResponse, impl IntoResponse> {
    let Some(cookie) = jar.get(\"session\").map(|cookie| cookie.value().to_owned()) else {
        return Err((StatusCode::FORBIDDEN, \"Forbidden!\".to_string()));
    };
    let user_info = match sqlx::query_as::<_, UserInfo>(
        \"SELECT user_id FROM usersessions WHERE session_id = $1 AND expires_at > NOW()\",
    )
        .bind(cookie)
        .fetch_one(&state.db)
        .await
    {
        Ok(res) => res,
        Err(_) => return Err((StatusCode::FORBIDDEN, \"Forbidden!\".to_string())),
    };
    req.extensions_mut().insert(user_info);
    Ok(next.run(req).await)
}
";

/// The entry point's definition of the authentication router.
pub fn auth_router() -> (r: String)
    ensures
        r@ == AUTH_ROUTER@,
{
    String::from_str(AUTH_ROUTER)
}

/// The laid-out file of the login and registration handlers.
pub fn auth_routes() -> (r: Result<String, SynthesisError>)
    ensures
        r is Ok <==> parses(AUTH_ROUTES_SRC@),
        r matches Ok(p) ==> p@ == pretty_of(AUTH_ROUTES_SRC@),
{
    proof {
        assert(generated_source(AUTH_ROUTES_SRC@));
    }
    render(AUTH_ROUTES_SRC)
}

/// The laid-out file of the request guard.
pub fn auth_middleware() -> (r: Result<String, SynthesisError>)
    ensures
        r is Ok <==> parses(AUTH_MIDDLEWARE_SRC@),
        r matches Ok(p) ==> p@ == pretty_of(AUTH_MIDDLEWARE_SRC@),
{
    proof {
        assert(generated_source(AUTH_MIDDLEWARE_SRC@));
    }
    render(AUTH_MIDDLEWARE_SRC)
}

} // verus!
