//! The resolved configuration the program starts from: which input backend
//! to drive, and the skin the renderer draws.
//!
//! Parsing the configuration files themselves (YAML and JSON syntax) is the
//! unverified shell's job; it hands these plain values over.

pub mod json_config;
pub mod static_config;

use vstd::prelude::*;

verus! {

/// One sprite of the skin: its image path, destination position, and an
/// optional explicit size (the image's own size when absent).
#[derive(Debug)]
pub struct ImageConf {
    pub path: String,
    pub dst: (i32, i32),
    pub size: Option<(u32, u32)>,
}

/// An analog-stick overlay: its sprite and the pixel range the stick's
/// deflection moves it over.
#[derive(Debug)]
pub struct AnalogConf {
    pub image: ImageConf,
    pub range: (i32, i32),
}

/// A skin: the window size, the background, and one optional visual per
/// control.
#[derive(Debug)]
pub struct ThemeConfiguration {
    pub size: (u32, u32),
    pub background: ImageConf,
    pub a: Option<ImageConf>,
    pub b: Option<ImageConf>,
    pub x: Option<ImageConf>,
    pub y: Option<ImageConf>,
    pub up: Option<ImageConf>,
    pub down: Option<ImageConf>,
    pub left: Option<ImageConf>,
    pub right: Option<ImageConf>,
    pub start: Option<ImageConf>,
    pub analog: Option<AnalogConf>,
    pub c: Option<AnalogConf>,
    pub l_analog: Option<ImageConf>,
    pub r_analog: Option<ImageConf>,
    pub l_digital: Option<ImageConf>,
    pub r_digital: Option<ImageConf>,
    pub z: Option<ImageConf>,
}

/// The run-time-selected input backend: a replay file, a target process
/// name override, or a serial port path.
#[derive(Debug)]
pub enum InputSource {
    Dtm(String),
    Sa2(Option<String>),
    Serial(String),
}

/// The fully resolved startup configuration.
#[derive(Debug)]
pub struct Configuration {
    pub theme: ThemeConfiguration,
    pub theme_path: String,
    pub input: InputSource,
}

/// The raw top-level configuration record as it stands in the file: the
/// skin's path and the input selection, before the skin itself is loaded.
#[derive(Debug)]
pub struct ConfigurationFile {
    pub theme_path: String,
    pub input: InputSource,
}

impl Clone for ImageConf {
    /// An exact copy.
    fn clone(&self) -> (res: Self)
        ensures
            res == *self,
    {
        ImageConf { path: self.path.clone(), dst: self.dst, size: self.size }
    }
}

impl Clone for AnalogConf {
    /// An exact copy.
    fn clone(&self) -> (res: Self)
        ensures
            res == *self,
    {
        AnalogConf { image: self.image.clone(), range: self.range }
    }
}

/// An exact copy of one optional sprite.
fn clone_image_opt(conf: &Option<ImageConf>) -> (res: Option<ImageConf>)
    ensures
        res == *conf,
{
    match conf {
        Some(image) => Some(image.clone()),
        None => None,
    }
}

/// An exact copy of one optional analog overlay.
fn clone_analog_opt(conf: &Option<AnalogConf>) -> (res: Option<AnalogConf>)
    ensures
        res == *conf,
{
    match conf {
        Some(analog) => Some(analog.clone()),
        None => None,
    }
}

impl Clone for ThemeConfiguration {
    /// An exact copy.
    fn clone(&self) -> (res: Self)
        ensures
            res == *self,
    {
        ThemeConfiguration {
            size: self.size,
            background: self.background.clone(),
            a: clone_image_opt(&self.a),
            b: clone_image_opt(&self.b),
            x: clone_image_opt(&self.x),
            y: clone_image_opt(&self.y),
            up: clone_image_opt(&self.up),
            down: clone_image_opt(&self.down),
            left: clone_image_opt(&self.left),
            right: clone_image_opt(&self.right),
            start: clone_image_opt(&self.start),
            analog: clone_analog_opt(&self.analog),
            c: clone_analog_opt(&self.c),
            l_analog: clone_image_opt(&self.l_analog),
            r_analog: clone_image_opt(&self.r_analog),
            l_digital: clone_image_opt(&self.l_digital),
            r_digital: clone_image_opt(&self.r_digital),
            z: clone_image_opt(&self.z),
        }
    }
}

impl Clone for InputSource {
    /// An exact copy.
    fn clone(&self) -> (res: Self)
        ensures
            res == *self,
    {
        match self {
            InputSource::Dtm(path) => InputSource::Dtm(path.clone()),
            InputSource::Sa2(name) => InputSource::Sa2(
                match name {
                    Some(n) => Some(n.clone()),
                    None => None,
                },
            ),
            InputSource::Serial(path) => InputSource::Serial(path.clone()),
        }
    }
}

impl Clone for Configuration {
    /// An exact copy.
    fn clone(&self) -> (res: Self)
        ensures
            res == *self,
    {
        Configuration {
            theme: self.theme.clone(),
            theme_path: self.theme_path.clone(),
            input: self.input.clone(),
        }
    }
}

impl Clone for ConfigurationFile {
    /// An exact copy.
    fn clone(&self) -> (res: Self)
        ensures
            res == *self,
    {
        ConfigurationFile { theme_path: self.theme_path.clone(), input: self.input.clone() }
    }
}

} // verus!
