//! The settings of the pipeline.

use vstd::prelude::*;
use crate::transaction::text_view;

verus! {

/// The broker settings as plain values.
pub ghost struct RabbitMqConfigView {
    pub host: Seq<char>,
    pub port: u16,
    pub username: Option<Seq<char>>,
    pub password: Option<Seq<char>>,
    pub stream_name: Seq<char>,
}

/// The settings as plain values.
pub ghost struct ConfigView {
    pub api_url: Seq<char>,
    pub interval_analytic_blocks: u64,
    pub rabbitmq_config: RabbitMqConfigView,
    pub database_url: Seq<char>,
}

/// An optional borrowed text as plain values.
pub open spec fn borrowed_text_view(text: Option<&String>) -> Option<Seq<char>> {
    match text {
        Some(t) => Some(t@),
        None => None,
    }
}

#[derive(Debug, Clone)]
pub struct Config {
    api_url: String,
    interval_analytic_blocks: u64,
    rabbitmq_config: RabbitMqConfig,
    database_url: String,
}

#[derive(Debug, Clone)]
pub struct RabbitMqConfig {
    host: String,
    port: u16,
    username: Option<String>,
    password: Option<String>,
    stream_name: String,
}

impl View for RabbitMqConfig {
    type V = RabbitMqConfigView;

    closed spec fn view(&self) -> RabbitMqConfigView {
        RabbitMqConfigView {
            host: self.host@,
            port: self.port,
            username: text_view(self.username),
            password: text_view(self.password),
            stream_name: self.stream_name@,
        }
    }
}

impl View for Config {
    type V = ConfigView;

    closed spec fn view(&self) -> ConfigView {
        ConfigView {
            api_url: self.api_url@,
            interval_analytic_blocks: self.interval_analytic_blocks,
            rabbitmq_config: self.rabbitmq_config@,
            database_url: self.database_url@,
        }
    }
}

impl RabbitMqConfig {
    pub fn from_parts(
        host: String,
        port: u16,
        username: Option<String>,
        password: Option<String>,
        stream_name: String,
    ) -> (config: RabbitMqConfig)
        ensures
            config@ == (RabbitMqConfigView {
                host: host@,
                port,
                username: text_view(username),
                password: text_view(password),
                stream_name: stream_name@,
            }),
    {
        RabbitMqConfig { host, port, username, password, stream_name }
    }

    pub fn get_host(&self) -> (host: &str)
        ensures
            host@ == self@.host,
    {
        self.host.as_str()
    }

    pub fn get_port(&self) -> (port: u16)
        ensures
            port == self@.port,
    {
        self.port
    }

    pub fn get_username(&self) -> (username: Option<&String>)
        ensures
            borrowed_text_view(username) == self@.username,
    {
        self.username.as_ref()
    }

    pub fn get_password(&self) -> (password: Option<&String>)
        ensures
            borrowed_text_view(password) == self@.password,
    {
        self.password.as_ref()
    }

    pub fn get_stream_name(&self) -> (stream_name: &str)
        ensures
            stream_name@ == self@.stream_name,
    {
        self.stream_name.as_str()
    }
}

impl Config {
    pub fn from_parts(
        api_url: String,
        interval_analytic_blocks: u64,
        rabbitmq_config: RabbitMqConfig,
        database_url: String,
    ) -> (config: Config)
        ensures
            config@ == (ConfigView {
                api_url: api_url@,
                interval_analytic_blocks,
                rabbitmq_config: rabbitmq_config@,
                database_url: database_url@,
            }),
    {
        Config { api_url, interval_analytic_blocks, rabbitmq_config, database_url }
    }

    pub fn get_api_url(&self) -> (api_url: &str)
        ensures
            api_url@ == self@.api_url,
    {
        self.api_url.as_str()
    }

    pub fn get_interval_analytic_blocks(&self) -> (interval: u64)
        ensures
            interval == self@.interval_analytic_blocks,
    {
        self.interval_analytic_blocks
    }

    pub fn get_rabbitmq_config(&self) -> (rabbitmq_config: &RabbitMqConfig)
        ensures
            rabbitmq_config@ == self@.rabbitmq_config,
    {
        &self.rabbitmq_config
    }

    pub fn get_database_url(&self) -> (database_url: &str)
        ensures
            database_url@ == self@.database_url,
    {
        self.database_url.as_str()
    }
}

} // verus!
